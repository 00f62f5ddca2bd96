use serde_json::Value;
use tdn_rpc::message::RpcMessage;
use tdn_rpc::peer::PeerId;
use tdn_rpc::router::{Router, RouterAction, RouterEvent};
use tdn_rpc::message::RpcSendType;
use tdn_rpc::text::Header;
use tdn_rpc::ws::{frame_text, handshake, Frame, WsAction, WsConnection, WsEvent};
use tdn_types::rpc::RpcError;

type Message = RpcMessage<u8, u8>;
type Action = WsAction<u8, u8>;

fn value(text: &str) -> Value {
    serde_json::from_str(text).unwrap()
}

fn line(name: &str, value: &str) -> Header {
    Header {
        name: name.as_bytes().to_vec(),
        value: value.as_bytes().to_vec(),
    }
}

fn connection() -> WsConnection {
    WsConnection {
        id: 77,
        peer: PeerId([3; 20]),
    }
}

fn text(s: &str) -> Action {
    connection().step(WsEvent::Stream(s.to_owned()))
}

fn written(action: Action) -> String {
    match action {
        WsAction::Write(text) => text,
        other => panic!("{:?}", other),
    }
}

fn request(action: Action) -> (u64, PeerId, Value) {
    match action {
        WsAction::Forward(RpcMessage::Request(id, peer, param, None)) => (id, peer, param),
        other => panic!("{:?}", other),
    }
}

#[test]
fn ping_is_answered_with_pong() {
    assert_eq!(written(text("ping")), "pong");
    assert!(written(text("Ping")).contains("Parse error"));
}

#[test]
fn requests_are_passed_on() {
    let (id, peer, param) = request(text("{\"jsonrpc\":\"2.0\",\"id\":\"4\",\"method\":\"m\"}"));
    assert_eq!(id, 77);
    assert_eq!(peer, PeerId([3; 20]));
    assert_eq!(
        param,
        value("{\"jsonrpc\":\"2.0\",\"id\":4,\"method\":\"m\",\"params\":[]}")
    );
}

#[test]
fn a_request_may_name_its_peer() {
    let hex = "0a".repeat(20);
    let body = format!(
        "{{\"jsonrpc\":\"2.0\",\"id\":1,\"method\":\"m\",\"params\":[7],\"peer\":\"0x{}\"}}",
        hex
    );
    let (_, peer, _) = request(text(&body));
    assert_eq!(peer, PeerId([10; 20]));
}

#[test]
fn ws_what_is_no_request_is_refused() {
    let refused = value(&written(text("{\"jsonrpc\":\"1.0\",\"id\":6,\"method\":\"m\"}")));
    assert_eq!(refused["id"], value("6"));
    assert_eq!(
        refused["error"]["message"],
        value("\"Unsupported JSON-RPC protocol version\"")
    );
    let answer = value(&written(text("{\"jsonrpc\":\"2.0\",\"id\":6,\"result\":1}")));
    assert_eq!(answer["error"]["message"], value("\"Invalid Response\""));
    let unread = value(&written(text("")));
    assert_eq!(unread["error"]["code"], value("-32700"));
}

#[test]
fn ws_given_results_of_parsing() {
    let c = connection();
    let named = PeerId([8; 20]);
    assert_eq!(
        request(c.take_parsed(Ok((named, value("[1]"))))),
        (77, named, value("[1]"))
    );
    assert_eq!(
        request(c.take_parsed(Ok((PeerId::default(), value("[1]"))))),
        (77, PeerId([3; 20]), value("[1]"))
    );
    let refused: Action = c.take_parsed(Err((RpcError::Custom("no".to_owned()), 5)));
    let refused = value(&written(refused));
    assert_eq!(refused["id"], value("5"));
    assert_eq!(refused["error"]["message"], value("\"no\""));
}

#[test]
fn messages_are_written() {
    let c = connection();
    assert_eq!(
        written(c.step(WsEvent::Out(Message::Response(value("{\"r\": 1}"))))),
        "{\"r\":1}"
    );
    assert_eq!(written(c.step(WsEvent::Out(Message::Close(77)))), "null");
}

#[test]
fn the_end_is_told_to_the_router() {
    let action: Action = connection().step(WsEvent::Closed);
    assert!(matches!(action, WsAction::Leave(RpcMessage::Close(77))));
}

#[test]
fn opening_headers() {
    let hex = "ab".repeat(20);
    let (peer, data) = handshake(&vec![
        line("host", "here"),
        line("x-peer-sig", &hex),
        line("x-peer-data", "first"),
        line("X-Peer-Data", "second"),
    ]);
    assert_eq!(peer, PeerId([0xab; 20]));
    assert_eq!(data, "second");
}

#[test]
fn opening_headers_that_cannot_be_read() {
    let hex = "ab".repeat(20);
    let (peer, data) = handshake(&vec![
        line("x-peer-sig", &hex),
        line("x-peer-data", "first"),
        line("x-peer-sig", "nobody"),
        line("x-peer-data", "\u{e9}"),
    ]);
    assert_eq!(peer, PeerId::default());
    assert_eq!(data, "");
    let (peer, data) = handshake(&vec![]);
    assert_eq!(peer, PeerId::default());
    assert_eq!(data, "");
}

#[test]
fn opening_a_connection() {
    let greeting = Some((PeerId([4; 20]), "hello".to_owned()));
    let (c, message) = WsConnection::open::<u8, u8>(12, greeting, 200);
    assert_eq!((c.id, c.peer), (12, PeerId([4; 20])));
    assert_eq!(
        format!("{:?}", message),
        format!("{:?}", Message::Open(12, PeerId([4; 20]), "hello".to_owned(), 200))
    );
    let (c, message) = WsConnection::open::<u8, u8>(13, None, 201);
    assert_eq!((c.id, c.peer), (13, PeerId::default()));
    assert_eq!(
        format!("{:?}", message),
        format!("{:?}", Message::Open(13, PeerId::default(), String::new(), 201))
    );
}

#[test]
fn ws_numbers_are_drawn_at_random() {
    let (a, message) = WsConnection::new::<u8, u8>(None, 1);
    assert!(matches!(message, RpcMessage::Open(id, _, _, 1) if id == a.id));
    let (b, _) = WsConnection::new::<u8, u8>(None, 1);
    assert_ne!(a.id, b.id);
}

#[test]
fn frames_as_text() {
    assert_eq!(frame_text(Frame::Text("a".to_owned())).as_deref(), Some("a"));
    assert_eq!(
        frame_text(Frame::Binary("\u{e9}".as_bytes().to_vec())).as_deref(),
        Some("\u{e9}")
    );
    assert_eq!(frame_text(Frame::Binary(vec![0xff])), None);
    assert_eq!(frame_text(Frame::Ping(b"p".to_vec())).as_deref(), Some("p"));
    assert_eq!(frame_text(Frame::Pong(vec![0xc0])), None);
    assert_eq!(frame_text(Frame::Close(None)).as_deref(), Some(""));
    assert_eq!(
        frame_text(Frame::Close(Some("bye".to_owned()))).as_deref(),
        Some("bye")
    );
}

#[test]
fn ws_a_request_and_its_answer() {
    let mut hub: Router<u8, u8> = Router::new();
    let (c, message) = WsConnection::open(31, Some((PeerId([6; 20]), String::new())), 9);
    hub.step(RouterEvent::Stream(message));
    let action = c.step(WsEvent::Stream(
        "{\"jsonrpc\":\"2.0\",\"id\":1,\"method\":\"m\",\"params\":[]}".to_owned(),
    ));
    match action {
        WsAction::Forward(message) => hub.step(RouterEvent::Stream(message)),
        other => panic!("{:?}", other),
    };
    match hub.step(RouterEvent::Out(RpcSendType::Event(31, value("[2]")))) {
        RouterAction::Push(31, message) => {
            assert_eq!(hub.handle(31), Some(&9));
            assert_eq!(written(c.step(WsEvent::Out(message))), "[2]");
        }
        other => panic!("{:?}", other),
    }
}
