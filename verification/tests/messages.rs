use serde_json::Value;
use tdn_rpc::jsonrpc::{param_text, refusal_text};
use tdn_rpc::message::{
    reply_param, reply_text, sync_reply, ChannelMessage, RpcMessage, SyncError, SyncOutcome,
    CHANNEL_CAPACITY,
};
use tdn_rpc::peer::PeerId;
use tdn_types::rpc::RpcError;

type Message = RpcMessage<u8, u8>;

fn value(text: &str) -> Value {
    serde_json::from_str(text).unwrap()
}

#[test]
fn a_response_carries_its_content() {
    let content = value("{\"a\":[1,2,\"x\"]}");
    assert_eq!(
        reply_param(Message::Response(content.clone())),
        content.clone()
    );
    assert_eq!(
        reply_text(Message::Response(content)),
        "{\"a\":[1,2,\"x\"]}"
    );
}

#[test]
fn any_other_message_carries_null() {
    let others = vec![
        Message::Close(3),
        Message::Open(3, PeerId::default(), String::new(), 1),
        Message::Request(3, PeerId::default(), value("1"), None),
    ];
    for message in others {
        assert_eq!(reply_param(message), Value::Null);
    }
    assert_eq!(reply_text(Message::Close(3)), "null");
}

#[test]
fn values_are_written_without_spaces() {
    assert_eq!(param_text(&value(" { \"k\" : [ true , null ] } ")), "{\"k\":[true,null]}");
}

#[test]
fn refusals_are_json_rpc_errors() {
    let refusal = value(&refusal_text(&RpcError::InvalidRequest, 9));
    assert_eq!(refusal["jsonrpc"], value("\"2.0\""));
    assert_eq!(refusal["id"], value("9"));
    assert_eq!(refusal["error"]["code"], value("-32600"));
    assert_eq!(refusal["error"]["message"], value("\"Invalid Request\""));
    let unread = value(&refusal_text(&RpcError::ParseError, 9));
    assert_eq!(unread["error"]["code"], value("-32700"));
    assert!(unread.get("id").is_none());
}

#[test]
fn waiting_for_an_answer() {
    assert_eq!(
        sync_reply(SyncOutcome::<u8, u8>::TimedOut),
        Err(SyncError::Timeout)
    );
    assert_eq!(
        sync_reply(SyncOutcome::<u8, u8>::Dropped),
        Err(SyncError::Closed)
    );
    assert_eq!(
        sync_reply(SyncOutcome::Answered(Message::Response(value("5")))),
        Ok(value("5"))
    );
    assert_eq!(
        sync_reply(SyncOutcome::Answered(Message::Close(1))),
        Ok(Value::Null)
    );
}

#[test]
fn channels() {
    assert_eq!(CHANNEL_CAPACITY, 128);
    let sync: ChannelMessage<u8> = ChannelMessage::Sync(value("1"), 4);
    assert!(matches!(sync, ChannelMessage::Sync(_, 4)));
    let no_wait: ChannelMessage<u8> = ChannelMessage::Async(value("1"));
    assert!(matches!(no_wait, ChannelMessage::Async(_)));
}
