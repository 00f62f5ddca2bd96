use serde_json::Value;
use tdn_rpc::http::{
    check_head, homepage, parse_req, take_parsed, take_request, Head, HttpAction, HttpConnection,
    HttpEvent, HttpStage, HTTP, MAX_HEADERS, READ_SIZE, RESPONSE_HEAD,
};
use tdn_rpc::message::{RpcMessage, RpcSendType};
use tdn_rpc::peer::PeerId;
use tdn_rpc::router::{Router, RouterAction, RouterEvent};
use tdn_rpc::text::Header;
use tdn_rpc::ws::{WsAction, WsConnection, WsEvent};
use tdn_types::rpc::RpcError;

type Message = RpcMessage<u8, u8>;
type Action = HttpAction<u8, u8>;

const CALL: &str = "{\"jsonrpc\":\"2.0\",\"id\":1,\"method\":\"m\",\"params\":[2]}";

fn value(text: &str) -> Value {
    serde_json::from_str(text).unwrap()
}

fn line(name: &str, value: &str) -> Header {
    Header {
        name: name.as_bytes().to_vec(),
        value: value.as_bytes().to_vec(),
    }
}

fn head(end: Option<usize>, length: Option<&str>) -> Option<Head> {
    let mut headers = vec![line("Host", "here")];
    if let Some(length) = length {
        headers.push(line("Content-Length", length));
        headers.push(line("content-length", "bad"));
    }
    Some(Head { end, headers })
}

fn post(headers: &str, body: &str) -> Vec<u8> {
    format!("POST / HTTP/1.1\r\n{}\r\n{}", headers, body).into_bytes()
}

fn connection() -> HttpConnection<u8> {
    HttpConnection {
        id: 50,
        stage: HttpStage::Head(4),
    }
}

fn forwarded(action: Action) -> (u64, PeerId, Value, Option<u8>) {
    match action {
        HttpAction::Forward(RpcMessage::Request(id, peer, param, to)) => (id, peer, param, to),
        other => panic!("{:?}", other),
    }
}

fn content(text: &str) -> Value {
    assert!(text.starts_with(RESPONSE_HEAD));
    value(&text[RESPONSE_HEAD.len()..])
}

#[test]
fn constants() {
    assert_eq!(READ_SIZE, 1024);
    assert_eq!(MAX_HEADERS, 16);
    assert_eq!(RESPONSE_HEAD, "HTTP/1.1 200 OK\r\nAccess-Control-Allow-Origin:*\r\nCross-Origin-Resource-Policy:cross-origin\r\nContent-Type:application/json;charset=UTF-8\r\n\r\n");
}

#[test]
fn pages() {
    let page: Result<String, ()> = Ok("<p>".to_owned());
    assert_eq!(homepage(Some(page)), "<p>");
    assert_eq!(homepage::<()>(Some(Err(()))), "Error Homepage.");
    assert_eq!(homepage::<()>(None), "No Homepage.");
}

#[test]
fn heads() {
    match check_head(head(Some(10), Some("5")), 15).unwrap() {
        HTTP::Complete(10, headers) => assert_eq!(headers.len(), 3),
        other => panic!("{:?}", other),
    }
    assert!(matches!(
        check_head(head(Some(10), Some("4")), 15),
        Ok(HTTP::Complete(10, _))
    ));
    assert!(matches!(
        check_head(head(Some(10), Some("6")), 15),
        Ok(HTTP::NeedMore(10, 6))
    ));
}

#[test]
fn bad_heads() {
    assert_eq!(check_head(None, 15).unwrap_err(), "HTTP parse error");
    assert_eq!(
        check_head(head(Some(1), None), 15).unwrap_err(),
        "HTTP header is invalid"
    );
    assert_eq!(
        check_head(head(None, None), 15).unwrap_err(),
        "HTTP header is invalid"
    );
    assert_eq!(
        check_head(head(Some(1), Some("x")), 15).unwrap_err(),
        "HTTP length is invalid"
    );
    assert_eq!(
        check_head(head(None, Some("x")), 15).unwrap_err(),
        "HTTP length is invalid"
    );
    assert_eq!(
        check_head(head(None, Some("5")), 15).unwrap_err(),
        "HTTP parse error"
    );
}

#[test]
fn requests() {
    let whole = post("A: b\r\nCONTENT-length: 3 \r\n", "abcd");
    match parse_req(&whole, 16).unwrap() {
        HTTP::Complete(amt, headers) => {
            assert_eq!(&whole[amt..], b"abcd");
            assert_eq!(headers.len(), 2);
            assert_eq!(headers[0].name, b"A");
            assert_eq!(headers[0].value, b"b");
            assert_eq!(headers[1].name, b"CONTENT-length");
            assert_eq!(headers[1].value, b"3");
        }
        other => panic!("{:?}", other),
    }
    let part = post("Content-Length: 9\r\n", "abcd");
    match parse_req(&part, 16).unwrap() {
        HTTP::NeedMore(amt, 9) => assert_eq!(&part[amt..], b"abcd"),
        other => panic!("{:?}", other),
    }
}

#[test]
fn bad_requests() {
    let cases: Vec<(Vec<u8>, &str)> = vec![
        (b"".to_vec(), "HTTP header is invalid"),
        (b"POST / HT".to_vec(), "HTTP header is invalid"),
        (b"\x00".to_vec(), "HTTP parse error"),
        (post("", "abc"), "HTTP header is invalid"),
        (post("Content-Length: many\r\n", ""), "HTTP length is invalid"),
        (
            b"POST / HTTP/1.1\r\nContent-Length: 3\r\nHos".to_vec(),
            "HTTP parse error",
        ),
        (
            b"POST / HTTP/1.1\r\nContent-Length: x\r\nHos".to_vec(),
            "HTTP length is invalid",
        ),
    ];
    for (bytes, reason) in cases {
        assert_eq!(parse_req(&bytes, 16).unwrap_err(), reason);
        let (c, action) = connection().step::<u8>(HttpEvent::Read(bytes));
        assert!(matches!(action, HttpAction::Reject(r) if r == reason));
        assert!(matches!(c.stage, HttpStage::Done));
    }
}

#[test]
fn room_for_headers() {
    let lines = "H: v\r\n".repeat(15);
    let fits = post(&format!("{}Content-Length: 0\r\n", lines), "");
    assert!(parse_req(&fits, MAX_HEADERS).is_ok());
    let full = post(&format!("{}H: v\r\nContent-Length: 0\r\n", lines), "");
    assert_eq!(
        parse_req(&full, MAX_HEADERS).unwrap_err(),
        "HTTP parse error"
    );
    assert!(parse_req(&full, MAX_HEADERS + 1).is_ok());
}

#[test]
fn a_request_in_one_read() {
    let hex = "0b".repeat(20);
    let bytes = post(
        &format!("Content-Length: {}\r\nX-Peer: {}\r\n", CALL.len(), hex),
        CALL,
    );
    let (c, action) = connection().step(HttpEvent::Read(bytes));
    assert_eq!(
        forwarded(action),
        (50, PeerId([11; 20]), value(CALL), Some(4))
    );
    assert!(matches!(c.stage, HttpStage::Answer(None)));
    let (c, action) = c.step(HttpEvent::Answered(Message::Response(value("[8]"))));
    match action {
        HttpAction::Finish(text) => assert_eq!(text, format!("{}[8]", RESPONSE_HEAD)),
        other => panic!("{:?}", other),
    }
    assert!(matches!(c.stage, HttpStage::Done));
    let (_, action) = c.step(HttpEvent::Answered(Message::Response(value("[9]"))));
    assert!(matches!(action, HttpAction::Stop));
}

#[test]
fn a_request_in_pieces() {
    let hex = "0b".repeat(20);
    let headers = format!("Content-Length: {}\r\nX-Peer: {}\r\n", CALL.len(), hex);
    for cut in 1..CALL.len() {
        let (c, action) = connection().step::<u8>(HttpEvent::Read(post(&headers, &CALL[..1])));
        assert!(matches!(action, HttpAction::Read));
        let (c, action) = c.step::<u8>(HttpEvent::Read(vec![]));
        assert!(matches!(action, HttpAction::Read));
        let (c, action) = c.step::<u8>(HttpEvent::Read(CALL.as_bytes()[1..cut].to_vec()));
        assert!(matches!(action, HttpAction::Read));
        let (_, action) = c.step(HttpEvent::Read(CALL.as_bytes()[cut..].to_vec()));
        assert_eq!(
            forwarded(action),
            (50, PeerId::default(), value(CALL), Some(4))
        );
    }
}

#[test]
fn http_what_is_no_request_is_refused() {
    let bytes = post("Content-Length: 2\r\n", "{}");
    let (c, action) = connection().step::<u8>(HttpEvent::Read(bytes));
    match action {
        HttpAction::Refuse(text) => {
            assert_eq!(content(&text)["error"]["code"], value("-32700"))
        }
        other => panic!("{:?}", other),
    }
    assert!(matches!(c.stage, HttpStage::Answer(Some(4))));
    let (c, action) = c.step::<u8>(HttpEvent::Read(CALL.as_bytes().to_vec()));
    assert!(matches!(action, HttpAction::Wait));
    let (_, action) = c.step::<u8>(HttpEvent::Abandoned);
    assert!(matches!(action, HttpAction::Stop));
}

#[test]
fn faults_in_the_encoding_are_replaced() {
    let mut bytes = post("Content-Length: 49\r\n", "{\"jsonrpc\":\"2.0\",\"id\":1,\"method\":\"m\",\"params\":[\"");
    bytes.extend(b"\xff\"]}");
    let (_, action) = connection().step(HttpEvent::Read(bytes));
    let (_, _, param, _) = forwarded(action);
    assert_eq!(param["params"], value("[\"\u{fffd}\"]"));
}

#[test]
fn http_given_results_of_parsing() {
    let named = PeerId([8; 20]);
    let carried = PeerId([9; 20]);
    let (stage, action) = take_parsed(1, 2u8, carried, Ok((named, value("3"))));
    assert_eq!(forwarded(action), (1, named, value("3"), Some(2)));
    assert!(matches!(stage, HttpStage::Answer(None)));
    let (_, action) = take_parsed(1, 2u8, carried, Ok((PeerId::default(), value("3"))));
    assert_eq!(forwarded(action), (1, carried, value("3"), Some(2)));
    let refused: (HttpStage<u8>, Action) =
        take_parsed(1, 2, carried, Err((RpcError::InvalidRequest, 7)));
    match refused {
        (HttpStage::Answer(Some(2)), HttpAction::Refuse(text)) => {
            assert_eq!(content(&text)["id"], value("7"))
        }
        other => panic!("{:?}", other),
    }
}

#[test]
fn given_requests() {
    let missing: (HttpStage<u8>, Action) =
        take_request(1, 2, b"headbo".to_vec(), Ok(HTTP::NeedMore(4, 9)));
    match missing {
        (HttpStage::Body(2, 9, body), HttpAction::Read) => assert_eq!(body, b"bo"),
        other => panic!("{:?}", other),
    }
    let rejected: (HttpStage<u8>, Action) = take_request(1, 2, b"x".to_vec(), Err("why"));
    assert!(matches!(
        rejected,
        (HttpStage::Done, HttpAction::Reject("why"))
    ));
    let bytes = format!("head{}", CALL).into_bytes();
    let (_, action) = take_request(1, 2u8, bytes, Ok(HTTP::Complete(4, vec![])));
    assert_eq!(
        forwarded(action),
        (1, PeerId::default(), value(CALL), Some(2))
    );
}

#[test]
fn events_that_are_not_waited_for_change_nothing() {
    let (c, action) = connection().step::<u8>(HttpEvent::Abandoned);
    assert!(matches!(action, HttpAction::Read));
    assert!(matches!(c.stage, HttpStage::Head(4)));
    let body = HttpConnection {
        id: 1,
        stage: HttpStage::Body(4u8, 9, vec![1]),
    };
    let (c, action) = body.step::<u8>(HttpEvent::Abandoned);
    assert!(matches!(action, HttpAction::Read));
    assert!(matches!(c.stage, HttpStage::Body(4, 9, _)));
}

#[test]
fn any_other_message_is_answered_with_null() {
    let c = HttpConnection {
        id: 1,
        stage: HttpStage::Answer(None::<u8>),
    };
    let (_, action) = c.step(HttpEvent::Answered(Message::Close(1)));
    match action {
        HttpAction::Finish(text) => assert_eq!(content(&text), Value::Null),
        other => panic!("{:?}", other),
    }
}

#[test]
fn http_numbers_are_drawn_at_random() {
    let a = HttpConnection::new(3u8);
    let b = HttpConnection::new(3u8);
    assert_ne!(a.id, b.id);
    assert!(matches!(a.stage, HttpStage::Head(3)));
}

#[test]
fn http_a_request_and_its_answer() {
    let mut hub: Router<u8, u8> = Router::new();
    let bytes = post(&format!("Content-Length: {}\r\n", CALL.len()), CALL);
    let (c, action) = connection().step(HttpEvent::Read(bytes));
    match action {
        HttpAction::Forward(message) => hub.step(RouterEvent::Stream(message)),
        other => panic!("{:?}", other),
    };
    match hub.step(RouterEvent::Out(RpcSendType::Event(50, value("[2]")))) {
        RouterAction::Reply(4, message) => match c.step(HttpEvent::Answered(message)).1 {
            HttpAction::Finish(text) => assert_eq!(content(&text), value("[2]")),
            other => panic!("{:?}", other),
        },
        other => panic!("{:?}", other),
    }
}

#[test]
fn both_ways_are_alike() {
    let ws = WsConnection {
        id: 50,
        peer: PeerId::default(),
    };
    for text in [CALL, "{}", "", "[1]", "{\"id\":3}", "{\"id\":3,\"method\":\"m\"}"] {
        let bytes = post(&format!("Content-Length: {}\r\n", text.len()), text);
        let (_, over_http) = connection().step::<u8>(HttpEvent::Read(bytes));
        let over_ws: WsAction<u8, u8> = ws.step(WsEvent::Stream(text.to_owned()));
        match (over_http, over_ws) {
            (
                HttpAction::Forward(RpcMessage::Request(a, p, x, Some(4))),
                WsAction::Forward(RpcMessage::Request(b, q, y, None)),
            ) => assert_eq!((a, p, x), (b, q, y)),
            (HttpAction::Refuse(a), WsAction::Write(b)) => {
                assert_eq!(a, format!("{}{}", RESPONSE_HEAD, b))
            }
            other => panic!("{:?}", other),
        }
    }
}
