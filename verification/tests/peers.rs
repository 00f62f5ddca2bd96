use tdn_rpc::http::peer_of_headers;
use tdn_rpc::peer::{real_peer, PeerId};
use tdn_rpc::text::Header;

fn line(name: &str, value: &[u8]) -> Header {
    Header {
        name: name.as_bytes().to_vec(),
        value: value.to_vec(),
    }
}

const HEX: &str = "0x00112233445566778899aabbccddeeff01234567";
const BYTES: [u8; 20] = [
    0x00, 0x11, 0x22, 0x33, 0x44, 0x55, 0x66, 0x77, 0x88, 0x99, 0xaa, 0xbb, 0xcc, 0xdd, 0xee, 0xff,
    0x01, 0x23, 0x45, 0x67,
];

#[test]
fn named_peer_goes_before_carried_peer() {
    let a = PeerId([1; 20]);
    let b = PeerId([2; 20]);
    assert_eq!(real_peer(a, b), a);
    assert_eq!(real_peer(PeerId::default(), b), b);
    assert_eq!(
        real_peer(PeerId::default(), PeerId::default()),
        PeerId([0; 20])
    );
}

#[test]
fn peers_differ_by_one_byte() {
    let mut bytes = [7u8; 20];
    let a = PeerId(bytes);
    bytes[19] = 8;
    assert_ne!(a, PeerId(bytes));
    assert_eq!(a, PeerId([7; 20]));
}

#[test]
fn header_peer_is_read_from_hexadecimal() {
    assert_eq!(
        peer_of_headers(&vec![line("X-PEER", HEX.as_bytes())]),
        PeerId(BYTES)
    );
    assert_eq!(
        peer_of_headers(&vec![line("x-peer", HEX[2..].to_uppercase().as_bytes())]),
        PeerId(BYTES)
    );
}

#[test]
fn header_peer_that_is_not_hexadecimal_is_ignored() {
    let none = PeerId::default();
    assert_eq!(peer_of_headers(&vec![]), none);
    assert_eq!(peer_of_headers(&vec![line("X-PEER", b"")]), none);
    assert_eq!(peer_of_headers(&vec![line("X-PEER", b"0x0011")]), none);
    assert_eq!(peer_of_headers(&vec![line("X-PEER", &[0xff; 40])]), none);
    let odd = &HEX.as_bytes()[..HEX.len() - 1];
    assert_eq!(peer_of_headers(&vec![line("X-PEER", odd)]), none);
    let prefix = HEX.replace("0x", "0X");
    assert_eq!(
        peer_of_headers(&vec![line("X-PEER", prefix.as_bytes())]),
        none
    );
    assert_eq!(
        peer_of_headers(&vec![line("X-PEERS", HEX.as_bytes())]),
        none
    );
}

#[test]
fn last_header_peer_that_can_be_read_wins() {
    let other = "11".repeat(20);
    let lines = vec![
        line("X-Peer", other.as_bytes()),
        line("X-Peer", HEX.as_bytes()),
        line("X-Peer", b"nobody"),
        line("Host", other.as_bytes()),
    ];
    assert_eq!(peer_of_headers(&lines), PeerId(BYTES));
}
