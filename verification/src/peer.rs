//! Peer identities: their hexadecimal form, and which of two identities a
//! request is made under.

use vstd::prelude::*;

verus! {

/// The identity of a peer: twenty bytes, all of them zero when no peer is named.
#[derive(Clone, Copy, Debug)]
pub struct PeerId(pub [u8; 20]);

impl View for PeerId {
    type V = Seq<u8>;

    open spec fn view(&self) -> Seq<u8> {
        self.0@
    }
}

/// The bytes of the identity that names no peer.
pub open spec fn no_peer() -> Seq<u8> {
    Seq::new(20, |i: int| 0u8)
}

impl PartialEq for PeerId {
    fn eq(&self, other: &PeerId) -> (r: bool) {
        let mut i: usize = 0;
        while i < 20
            invariant
                i <= 20,
                forall|k: int| 0 <= k < i ==> self.0@[k] == other.0@[k],
            decreases 20 - i,
        {
            if self.0[i] != other.0[i] {
                return false;
            }
            i = i + 1;
        }
        assert(self.0 =~= other.0);
        true
    }
}

impl vstd::std_specs::cmp::PartialEqSpecImpl for PeerId {
    open spec fn obeys_eq_spec() -> bool {
        true
    }

    open spec fn eq_spec(&self, other: &PeerId) -> bool {
        *self == *other
    }
}

impl Eq for PeerId {

}

impl Default for PeerId {
    /// The identity that names no peer.
    fn default() -> (r: PeerId)
        ensures
            r@ == no_peer(),
    {
        PeerId([0; 20])
    }
}

/// The value of one hexadecimal digit, in either case.
pub open spec fn hex_value(c: char) -> Option<int> {
    if '0' <= c <= '9' {
        Some(c as int - '0' as int)
    } else if 'a' <= c <= 'f' {
        Some(c as int - 'a' as int + 10)
    } else if 'A' <= c <= 'F' {
        Some(c as int - 'A' as int + 10)
    } else {
        None
    }
}

/// The digits of a hexadecimal text: what follows the prefix `0x`, where there is one.
pub open spec fn hex_digits(text: Seq<char>) -> Seq<char> {
    if text.len() >= 2 && text[0] == '0' && text[1] == 'x' {
        text.skip(2)
    } else {
        text
    }
}

/// The identity that a hexadecimal text stands for: forty digits, two for each byte.
pub open spec fn peer_of_hex(text: Seq<char>) -> Option<Seq<u8>> {
    let digits = hex_digits(text);
    if digits.len() == 40 && forall|i: int| 0 <= i < 40 ==> hex_value(#[trigger] digits[i]) is Some {
        Some(
            Seq::new(
                20,
                |i: int|
                    (hex_value(digits[2 * i])->0 * 16 + hex_value(digits[2 * i + 1])->0) as u8,
            ),
        )
    } else {
        None
    }
}

/// The identity that `text` stands for, or the one that names no peer.
pub open spec fn peer_of_hex_or_none(text: Seq<char>) -> Seq<u8> {
    match peer_of_hex(text) {
        Some(peer) => peer,
        None => no_peer(),
    }
}

impl PeerId {
    /// Calls `tdn_types::primitives::PeerId::from_hex`. Trusted: it succeeds on exactly
    /// the texts of forty hexadecimal digits, with or without the prefix `0x`, and then
    /// holds the bytes that the digits spell.
    #[verifier::external_body]
    pub(crate) fn from_hex(text: &str) -> (r: Option<PeerId>)
        ensures
            r is Some <==> peer_of_hex(text@) is Some,
            r matches Some(peer) ==> peer@ == peer_of_hex(text@)->0,
    {
        match tdn_types::primitives::PeerId::from_hex(text) {
            Ok(peer) => Some(PeerId(peer.0)),
            Err(_) => None,
        }
    }
}

/// The identity that a request is made under: the one it names, else the one that its
/// connection carries.
pub open spec fn acting_peer(named: Seq<u8>, carried: Seq<u8>) -> Seq<u8> {
    if named != no_peer() {
        named
    } else {
        carried
    }
}

/// Picks the identity that a request is made under.
pub fn real_peer(named: PeerId, carried: PeerId) -> (r: PeerId)
    ensures
        r@ == acting_peer(named@, carried@),
{
    let nobody = PeerId::default();
    assert(named@ == no_peer() ==> named.0 =~= nobody.0);
    if named != nobody {
        named
    } else {
        carried
    }
}

} // verus!
