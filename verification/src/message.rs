//! The messages that pass between connections, the router and the application.

use vstd::prelude::*;

use crate::jsonrpc::{null_param, param_text, RpcParam};
use crate::peer::PeerId;
#[allow(unused_imports)]
use crate::jsonrpc::json_text;

verus! {

/// How many messages a channel between two parties holds.
pub const CHANNEL_CAPACITY: usize = 128;

/// A message between a connection and the router. `W` is a handle to which the messages
/// for an open connection go, `S` one that takes the single answer to a request.
#[derive(Debug)]
pub enum RpcMessage<W, S> {
    /// A connection was opened: its number, its peer, what the peer said of itself, and
    /// where to send what is meant for it.
    Open(u64, PeerId, String, W),
    /// The connection of this number ends.
    Close(u64),
    /// A request: its connection, the peer it is made for, its content, and where to send
    /// the answer if the connection stays open for that alone.
    Request(u64, PeerId, RpcParam, Option<S>),
    /// An answer.
    Response(RpcParam),
}

/// A request made from within the process.
#[derive(Debug)]
pub enum ChannelMessage<S> {
    /// The sender waits for the answer.
    Sync(RpcParam, S),
    /// The sender does not wait.
    Async(RpcParam),
}

/// What the application asks of the router.
#[derive(Debug)]
pub enum RpcSendType {
    /// Connect to a server: its address, the peer, a signature, and what to say of oneself.
    Connect(String, PeerId, String, String),
    /// End the connection of this number.
    Leave(u64),
    /// Send this content to the connection of this number.
    Event(u64, RpcParam),
}

/// What the router tells the application.
#[derive(Debug)]
pub enum RpcRecvType {
    /// A connection was opened: its number, its peer and what the peer said of itself.
    Connect(u64, PeerId, String),
    /// The connection of this number has ended.
    Leave(u64),
    /// A request came in: its connection, its peer and its content.
    Event(u64, PeerId, RpcParam),
}

/// [`RpcMessage`] as mathematical values: the bytes of the peer, the characters of the text.
pub enum RpcMessageView<W, S> {
    Open(u64, Seq<u8>, Seq<char>, W),
    Close(u64),
    Request(u64, Seq<u8>, RpcParam, Option<S>),
    Response(RpcParam),
}

impl<W, S> View for RpcMessage<W, S> {
    type V = RpcMessageView<W, S>;

    open spec fn view(&self) -> RpcMessageView<W, S> {
        match *self {
            RpcMessage::Open(id, peer, data, to) => RpcMessageView::Open(id, peer@, data@, to),
            RpcMessage::Close(id) => RpcMessageView::Close(id),
            RpcMessage::Request(id, peer, param, to) => RpcMessageView::Request(
                id,
                peer@,
                param,
                to,
            ),
            RpcMessage::Response(param) => RpcMessageView::Response(param),
        }
    }
}

/// [`RpcRecvType`] as mathematical values.
pub enum RpcRecvView {
    Connect(u64, Seq<u8>, Seq<char>),
    Leave(u64),
    Event(u64, Seq<u8>, RpcParam),
}

impl View for RpcRecvType {
    type V = RpcRecvView;

    open spec fn view(&self) -> RpcRecvView {
        match *self {
            RpcRecvType::Connect(id, peer, data) => RpcRecvView::Connect(id, peer@, data@),
            RpcRecvType::Leave(id) => RpcRecvView::Leave(id),
            RpcRecvType::Event(id, peer, param) => RpcRecvView::Event(id, peer@, param),
        }
    }
}

/// Whether `param` is what `message` carries back to the one who asked: the content of a
/// response, and JSON's null for every other message.
pub open spec fn carries<W, S>(message: RpcMessageView<W, S>, param: RpcParam) -> bool {
    match message {
        RpcMessageView::Response(content) => param == content,
        _ => json_text(param) == "null"@,
    }
}

/// The JSON text of what `message` carries back.
pub open spec fn carried_text<W, S>(message: RpcMessageView<W, S>) -> Seq<char> {
    match message {
        RpcMessageView::Response(content) => json_text(content),
        _ => "null"@,
    }
}

/// What `message` carries back to the one who asked.
pub fn reply_param<W, S>(message: RpcMessage<W, S>) -> (r: RpcParam)
    ensures
        carries(message@, r),
{
    match message {
        RpcMessage::Response(content) => content,
        _ => null_param(),
    }
}

/// Writes what `message` carries back as JSON.
pub fn reply_text<W, S>(message: RpcMessage<W, S>) -> (r: String)
    ensures
        r@ == carried_text(message@),
{
    let param = reply_param(message);
    param_text(&param)
}

/// How waiting for the answer to a request made from within the process ended.
pub enum SyncOutcome<W, S> {
    /// The time was up.
    TimedOut,
    /// The other side gave the request up.
    Dropped,
    /// This message came.
    Answered(RpcMessage<W, S>),
}

/// Why a request made from within the process has no answer.
#[derive(Clone, Copy, Debug, PartialEq, Eq, Structural)]
pub enum SyncError {
    /// The time was up.
    Timeout,
    /// The other side gave the request up.
    Closed,
}

/// What a request made from within the process returns.
pub fn sync_reply<W, S>(outcome: SyncOutcome<W, S>) -> (r: Result<RpcParam, SyncError>)
    ensures
        match outcome {
            SyncOutcome::TimedOut => r == Err::<RpcParam, SyncError>(SyncError::Timeout),
            SyncOutcome::Dropped => r == Err::<RpcParam, SyncError>(SyncError::Closed),
            SyncOutcome::Answered(message) => r is Ok && carries(message@, r->Ok_0),
        },
{
    match outcome {
        SyncOutcome::TimedOut => Err(SyncError::Timeout),
        SyncOutcome::Dropped => Err(SyncError::Closed),
        SyncOutcome::Answered(message) => Ok(reply_param(message)),
    }
}

} // verus!
