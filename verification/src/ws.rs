//! Requests over WebSocket: a connection that stays open, with many requests and answers.

use vstd::prelude::*;

use crate::ident::fresh_id;
use crate::jsonrpc::{parse_jsonrpc, refusal_text, Parsed};
use crate::message::{reply_text, RpcMessage, RpcMessageView};
use crate::peer::{real_peer, PeerId};
use crate::text::{name_is, utf8_text, visible_text, Header, HeaderView};
#[allow(unused_imports)]
use crate::jsonrpc::{jsonrpc_parsed, refusal};
#[allow(unused_imports)]
use crate::message::carried_text;
#[allow(unused_imports)]
use crate::peer::{acting_peer, no_peer, peer_of_hex_or_none};
#[allow(unused_imports)]
use crate::text::{header_views, is_named, utf8, visible};

verus! {

/// A header value as text, or the empty text where it cannot be read as text.
pub open spec fn value_text(value: Seq<u8>) -> Seq<char> {
    match visible(value) {
        Some(text) => text,
        None => Seq::empty(),
    }
}

/// The value of the last header line of this name.
pub open spec fn last_named(headers: Seq<HeaderView>, wanted: Seq<char>) -> Option<Seq<u8>>
    decreases headers.len(),
{
    if headers.len() == 0 {
        None
    } else if is_named(headers.last().0, wanted) {
        Some(headers.last().1)
    } else {
        last_named(headers.drop_last(), wanted)
    }
}

/// The peer that opens a connection: what the last line `X-PEER-SIG` says in hexadecimal.
pub open spec fn opening_peer(headers: Seq<HeaderView>) -> Seq<u8> {
    match last_named(headers, "X-PEER-SIG"@) {
        Some(value) => peer_of_hex_or_none(value_text(value)),
        None => no_peer(),
    }
}

/// What the peer that opens a connection says of itself: the last line `X-PEER-DATA`.
pub open spec fn opening_data(headers: Seq<HeaderView>) -> Seq<char> {
    match last_named(headers, "X-PEER-DATA"@) {
        Some(value) => value_text(value),
        None => Seq::empty(),
    }
}

fn text_or_empty(value: &[u8]) -> (r: String)
    ensures
        r@ == value_text(value@),
{
    match visible_text(value) {
        Some(text) => text,
        None => String::new(),
    }
}

/// Reads the header lines with which a connection is opened: the peer, and what it says of
/// itself.
pub fn handshake(headers: &Vec<Header>) -> (r: (PeerId, String))
    ensures
        r.0@ == opening_peer(header_views(headers@)),
        r.1@ == opening_data(header_views(headers@)),
{
    let ghost views = header_views(headers@);
    let mut peer = PeerId::default();
    let mut data = String::new();
    let mut i: usize = 0;
    proof {
        reveal_strlit("X-PEER-SIG");
        reveal_strlit("X-PEER-DATA");
        assert(views.take(0) =~= Seq::<HeaderView>::empty());
    }
    while i < headers.len()
        invariant
            i <= headers@.len(),
            views == header_views(headers@),
            vstd::utf8::is_ascii_chars("X-PEER-SIG"@),
            vstd::utf8::is_ascii_chars("X-PEER-DATA"@),
            "X-PEER-SIG"@.len() != "X-PEER-DATA"@.len(),
            peer@ == opening_peer(views.take(i as int)),
            data@ == opening_data(views.take(i as int)),
        decreases headers@.len() - i,
    {
        proof {
            assert(views.take(i + 1).drop_last() =~= views.take(i as int));
            assert(views.take(i + 1).last() == headers@[i as int]@);
        }
        let line = &headers[i];
        if name_is(line.name.as_slice(), "X-PEER-SIG") {
            let text = text_or_empty(line.value.as_slice());
            peer = match PeerId::from_hex(text.as_str()) {
                Some(p) => p,
                None => PeerId::default(),
            };
        } else if name_is(line.name.as_slice(), "X-PEER-DATA") {
            data = text_or_empty(line.value.as_slice());
        }
        i = i + 1;
    }
    assert(views.take(i as int) =~= views);
    (peer, data)
}

/// What comes in over an open connection.
#[derive(Debug)]
pub enum Frame {
    Text(String),
    Binary(Vec<u8>),
    Ping(Vec<u8>),
    Pong(Vec<u8>),
    /// The end of the connection, and the reason for it where one is given.
    Close(Option<String>),
}

/// What comes in, whatever its kind, as text.
pub open spec fn text_of_frame(frame: Frame) -> Option<Seq<char>> {
    match frame {
        Frame::Text(text) => Some(text@),
        Frame::Binary(data) => utf8(data@),
        Frame::Ping(data) => utf8(data@),
        Frame::Pong(data) => utf8(data@),
        Frame::Close(Some(reason)) => Some(reason@),
        Frame::Close(None) => Some(Seq::empty()),
    }
}

/// Reads what came in as text, where it is text.
pub fn frame_text(frame: Frame) -> (r: Option<String>)
    ensures
        r is Some <==> text_of_frame(frame) is Some,
        r matches Some(text) ==> text@ == text_of_frame(frame)->0,
{
    match frame {
        Frame::Text(text) => Some(text),
        Frame::Binary(data) => utf8_text(data),
        Frame::Ping(data) => utf8_text(data),
        Frame::Pong(data) => utf8_text(data),
        Frame::Close(Some(reason)) => Some(reason),
        Frame::Close(None) => Some(String::new()),
    }
}

/// What happens to an open connection.
#[derive(Debug)]
pub enum WsEvent<W, S> {
    /// This message came for the connection.
    Out(RpcMessage<W, S>),
    /// This text came over the connection.
    Stream(String),
    /// The connection, or the router, is gone.
    Closed,
}

/// [`WsEvent`] as mathematical values.
pub enum WsEventView<W, S> {
    Out(RpcMessageView<W, S>),
    Stream(Seq<char>),
    Closed,
}

impl<W, S> View for WsEvent<W, S> {
    type V = WsEventView<W, S>;

    open spec fn view(&self) -> WsEventView<W, S> {
        match *self {
            WsEvent::Out(message) => WsEventView::Out(message@),
            WsEvent::Stream(text) => WsEventView::Stream(text@),
            WsEvent::Closed => WsEventView::Closed,
        }
    }
}

/// What an open connection does.
#[derive(Debug)]
pub enum WsAction<W, S> {
    /// Write this text.
    Write(String),
    /// Pass this request on to the router.
    Forward(RpcMessage<W, S>),
    /// Tell the router this, and stop.
    Leave(RpcMessage<W, S>),
}

/// [`WsAction`] as mathematical values.
pub enum WsActionView<W, S> {
    Write(Seq<char>),
    Forward(RpcMessageView<W, S>),
    Leave(RpcMessageView<W, S>),
}

impl<W, S> View for WsAction<W, S> {
    type V = WsActionView<W, S>;

    open spec fn view(&self) -> WsActionView<W, S> {
        match *self {
            WsAction::Write(text) => WsActionView::Write(text@),
            WsAction::Forward(message) => WsActionView::Forward(message@),
            WsAction::Leave(message) => WsActionView::Leave(message@),
        }
    }
}

/// What follows once a text was read as a JSON-RPC request: a request is passed on,
/// anything else is refused in writing.
pub open spec fn ws_parsed<W, S>(id: u64, carried: Seq<u8>, parsed: Parsed) -> WsActionView<W, S> {
    match parsed {
        Ok((named, param)) => WsActionView::Forward(
            RpcMessageView::Request(id, acting_peer(named@, carried), param, None),
        ),
        Err((error, number)) => WsActionView::Write(refusal(error, number)),
    }
}

/// One step of the connection `id` of the peer `carried`.
pub open spec fn ws_step<W, S>(
    id: u64,
    carried: Seq<u8>,
    event: WsEventView<W, S>,
) -> WsActionView<W, S> {
    match event {
        WsEventView::Out(message) => WsActionView::Write(carried_text(message)),
        WsEventView::Stream(text) => if text == "ping"@ {
            WsActionView::Write("pong"@)
        } else {
            ws_parsed(id, carried, jsonrpc_parsed(text))
        },
        WsEventView::Closed => WsActionView::Leave(RpcMessageView::Close(id)),
    }
}

/// An open connection: its number, and the peer that opened it.
#[derive(Clone, Copy, Debug)]
pub struct WsConnection {
    pub id: u64,
    pub peer: PeerId,
}

impl WsConnection {
    /// A connection that was opened under the number `id`, and the message that tells the
    /// router so. `greeting` is what the opening header lines said, where they were read.
    pub fn open<W, S>(id: u64, greeting: Option<(PeerId, String)>, to: W) -> (r: (
        WsConnection,
        RpcMessage<W, S>,
    ))
        ensures
            r.0.id == id,
            match greeting {
                Some((peer, data)) => r.0.peer@ == peer@ && r.1@ == RpcMessageView::<W, S>::Open(
                    id,
                    peer@,
                    data@,
                    to,
                ),
                None => r.0.peer@ == no_peer() && r.1@ == RpcMessageView::<W, S>::Open(
                    id,
                    no_peer(),
                    Seq::empty(),
                    to,
                ),
            },
    {
        let (peer, data) = match greeting {
            Some((peer, data)) => (peer, data),
            None => (PeerId::default(), String::new()),
        };
        (WsConnection { id, peer }, RpcMessage::Open(id, peer, data, to))
    }

    /// Opens a connection under a number drawn at random.
    pub fn new<W, S>(greeting: Option<(PeerId, String)>, to: W) -> (r: (
        WsConnection,
        RpcMessage<W, S>,
    ))
        ensures
            match greeting {
                Some((peer, data)) => r.0.peer@ == peer@ && r.1@ == RpcMessageView::<W, S>::Open(
                    r.0.id,
                    peer@,
                    data@,
                    to,
                ),
                None => r.0.peer@ == no_peer() && r.1@ == RpcMessageView::<W, S>::Open(
                    r.0.id,
                    no_peer(),
                    Seq::empty(),
                    to,
                ),
            },
    {
        WsConnection::open(fresh_id(), greeting, to)
    }

    /// Passes a request on, or refuses what is none.
    pub fn take_parsed<W, S>(&self, parsed: Parsed) -> (r: WsAction<W, S>)
        ensures
            r@ == ws_parsed::<W, S>(self.id, self.peer@, parsed),
    {
        match parsed {
            Ok((named, param)) => WsAction::Forward(
                RpcMessage::Request(self.id, real_peer(named, self.peer), param, None),
            ),
            Err((error, number)) => WsAction::Write(refusal_text(&error, number)),
        }
    }

    /// Takes one step: what happened, and what to do.
    pub fn step<W, S>(&self, event: WsEvent<W, S>) -> (r: WsAction<W, S>)
        ensures
            r@ == ws_step(self.id, self.peer@, event@),
    {
        match event {
            WsEvent::Out(message) => WsAction::Write(reply_text(message)),
            WsEvent::Stream(text) => {
                if text == "ping".to_owned() {
                    WsAction::Write("pong".to_owned())
                } else {
                    self.take_parsed(parse_jsonrpc(text))
                }
            },
            WsEvent::Closed => WsAction::Leave(RpcMessage::Close(self.id)),
        }
    }
}

} // verus!
