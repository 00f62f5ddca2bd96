use serde_json::Value;
use tdn_rpc::message::{RpcMessage, RpcRecvType, RpcSendType};
use tdn_rpc::peer::PeerId;
use tdn_rpc::router::{Router, RouterAction, RouterEvent};

type Hub = Router<&'static str, &'static str>;
type Message = RpcMessage<&'static str, &'static str>;
type Action = RouterAction<&'static str, &'static str>;

fn number(n: u64) -> Value {
    Value::from(n)
}

fn open(hub: &mut Hub, id: u64, to: &'static str) -> Action {
    hub.step(RouterEvent::Stream(Message::Open(
        id,
        PeerId([9; 20]),
        "data".to_owned(),
        to,
    )))
}

fn request(hub: &mut Hub, id: u64, n: u64, to: Option<&'static str>) -> Action {
    hub.step(RouterEvent::Stream(Message::Request(
        id,
        PeerId([5; 20]),
        number(n),
        to,
    )))
}

fn send(hub: &mut Hub, id: u64, n: u64) -> Action {
    hub.step(RouterEvent::Out(RpcSendType::Event(id, number(n))))
}

fn close(hub: &mut Hub, id: u64) -> Action {
    hub.step(RouterEvent::Stream(Message::Close(id)))
}

fn leave(hub: &mut Hub, id: u64) -> Action {
    hub.step(RouterEvent::Out(RpcSendType::Leave(id)))
}

fn show(action: Action) -> String {
    format!("{:?}", action)
}

fn response(n: u64) -> Message {
    Message::Response(number(n))
}

#[test]
fn the_application_hears_of_everything() {
    let mut hub = Hub::new();
    let peer = PeerId([9; 20]);
    let opened = RouterAction::Notify(RpcRecvType::Connect(1, peer, "data".to_owned()));
    assert_eq!(show(open(&mut hub, 1, "w")), show(opened));
    let asked = RouterAction::Notify(RpcRecvType::Event(1, PeerId([5; 20]), number(8)));
    assert_eq!(show(request(&mut hub, 1, 8, None)), show(asked));
    let ended = RouterAction::Notify(RpcRecvType::Leave(1));
    assert_eq!(show(close(&mut hub, 1)), show(ended));
}

#[test]
fn an_answer_goes_to_the_request_once() {
    let mut hub = Hub::new();
    request(&mut hub, 1, 8, Some("s"));
    request(&mut hub, 2, 8, Some("t"));
    request(&mut hub, 1, 9, None);
    leave(&mut hub, 1);
    let reply = RouterAction::Reply("s", response(3));
    assert_eq!(show(send(&mut hub, 1, 3)), show(reply));
    assert_eq!(show(send(&mut hub, 1, 4)), show(RouterAction::Idle));
    let other = RouterAction::Reply("t", response(5));
    assert_eq!(show(send(&mut hub, 2, 5)), show(other));
}

#[test]
fn the_latest_handle_gets_the_answer() {
    let mut hub = Hub::new();
    request(&mut hub, 1, 8, Some("s"));
    request(&mut hub, 1, 8, Some("t"));
    let reply = RouterAction::Reply("t", response(3));
    assert_eq!(show(send(&mut hub, 1, 3)), show(reply));
    assert_eq!(show(send(&mut hub, 1, 3)), show(RouterAction::Idle));
}

#[test]
fn an_open_connection_gets_everything() {
    let mut hub = Hub::new();
    open(&mut hub, 1, "w");
    request(&mut hub, 1, 8, None);
    for n in 0..3 {
        let push = RouterAction::Push(1, response(n));
        assert_eq!(show(send(&mut hub, 1, n)), show(push));
        assert_eq!(hub.handle(1), Some(&"w"));
    }
    assert_eq!(hub.handle(2), None);
}

#[test]
fn an_open_connection_goes_before_a_waiting_request() {
    let mut hub = Hub::new();
    open(&mut hub, 1, "w");
    request(&mut hub, 1, 8, Some("s"));
    let push = RouterAction::Push(1, response(2));
    assert_eq!(show(send(&mut hub, 1, 2)), show(push));
    leave(&mut hub, 1);
    let reply = RouterAction::Reply("s", response(2));
    assert_eq!(show(send(&mut hub, 1, 2)), show(reply));
}

#[test]
fn leaving_is_told_once() {
    let mut hub = Hub::new();
    open(&mut hub, 1, "w");
    let farewell = RouterAction::Farewell("w", Message::Close(1));
    assert_eq!(show(leave(&mut hub, 1)), show(farewell));
    assert_eq!(show(leave(&mut hub, 1)), show(RouterAction::Idle));
    assert_eq!(hub.handle(1), None);
}

#[test]
fn a_closed_connection_is_silent() {
    let mut hub = Hub::new();
    open(&mut hub, 1, "w");
    request(&mut hub, 1, 8, Some("s"));
    close(&mut hub, 1);
    assert_eq!(show(send(&mut hub, 1, 3)), show(RouterAction::Idle));
    leave(&mut hub, 1);
    request(&mut hub, 1, 8, None);
    assert_eq!(show(send(&mut hub, 1, 3)), show(RouterAction::Idle));
}

#[test]
fn other_events_do_nothing() {
    let mut hub = Hub::new();
    let connect = RpcSendType::Connect(
        "ws://host".to_owned(),
        PeerId::default(),
        String::new(),
        String::new(),
    );
    assert_eq!(
        show(hub.step(RouterEvent::Out(connect))),
        show(RouterAction::Idle)
    );
    assert_eq!(
        show(hub.step(RouterEvent::Stream(response(1)))),
        show(RouterAction::Idle)
    );
    assert_eq!(show(hub.step(RouterEvent::Closed)), show(RouterAction::Stop));
}

#[test]
fn nothing_is_left_behind() {
    let mut hub = Hub::new();
    open(&mut hub, 1, "w");
    close(&mut hub, 1);
    request(&mut hub, 2, 8, Some("s"));
    send(&mut hub, 2, 3);
    assert_eq!(format!("{:?}", hub), format!("{:?}", Hub::new()));
}

#[test]
fn connections_are_apart() {
    let mut hub = Hub::new();
    open(&mut hub, 1, "w");
    request(&mut hub, 3, 8, Some("s"));
    open(&mut hub, 2, "v");
    leave(&mut hub, 2);
    close(&mut hub, 4);
    send(&mut hub, 5, 1);
    assert_eq!(hub.handle(1), Some(&"w"));
    let reply = RouterAction::Reply("s", response(3));
    assert_eq!(show(send(&mut hub, 3, 3)), show(reply));
}

#[test]
fn a_connection_opened_anew_is_the_one_served() {
    let mut hub = Hub::new();
    open(&mut hub, 1, "w");
    open(&mut hub, 1, "v");
    let push = RouterAction::Push(1, response(2));
    assert_eq!(show(send(&mut hub, 1, 2)), show(push));
    assert_eq!(hub.handle(1), Some(&"v"));
}
