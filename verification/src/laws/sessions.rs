//! What holds of connections over WebSocket: how they are opened, and what they do with what
//! comes in and goes out.

use vstd::prelude::*;

use crate::jsonrpc::Parsed;
use crate::laws::requests::acts;
use crate::laws::values::law_utf8_is_undone;
use crate::message::RpcMessage;
use crate::peer::PeerId;
use crate::text::{Header, HeaderView};
use crate::ws::{frame_text, handshake, Frame, WsAction, WsConnection, WsEvent};
#[allow(unused_imports)]
use crate::jsonrpc::{error_object, json_text, jsonrpc_parsed};
#[allow(unused_imports)]
use crate::peer::{no_peer, peer_of_hex};
#[allow(unused_imports)]
use crate::text::{header_views, is_named, visible};
#[allow(unused_imports)]
use crate::ws::last_named;

verus! {

// ---- Opening ----

/// Whether line `k` is the last one of this name.
pub open spec fn is_last(lines: Seq<HeaderView>, k: int, wanted: Seq<char>) -> bool {
    &&& 0 <= k < lines.len()
    &&& is_named(lines[k].0, wanted)
    &&& forall|j: int| k < j < lines.len() ==> !is_named(#[trigger] lines[j].0, wanted)
}

/// Whether no line has this name.
pub open spec fn is_absent(lines: Seq<HeaderView>, wanted: Seq<char>) -> bool {
    forall|j: int| 0 <= j < lines.len() ==> !is_named(#[trigger] lines[j].0, wanted)
}

/// The value that counts is that of the last line of the name, wherever it stands.
pub proof fn law_last_line_counts(lines: Seq<HeaderView>, k: int, wanted: Seq<char>)
    requires
        is_last(lines, k, wanted),
    ensures
        last_named(lines, wanted) == Some(lines[k].1),
    decreases lines.len(),
{
    let last = lines.len() - 1;
    if k < last {
        let rest = lines.drop_last();
        assert(!is_named(lines[last].0, wanted));
        assert(rest[k] == lines[k]);
        assert forall|j: int| k < j < rest.len() implies !is_named(
            #[trigger] rest[j].0,
            wanted,
        ) by {
            assert(rest[j] == lines[j]);
        }
        law_last_line_counts(rest, k, wanted);
    }
}

/// There is no value if and only if no line has the name.
pub proof fn law_absent_has_no_value(lines: Seq<HeaderView>, wanted: Seq<char>)
    ensures
        last_named(lines, wanted) is None <==> is_absent(lines, wanted),
    decreases lines.len(),
{
    if lines.len() > 0 {
        let rest = lines.drop_last();
        let last = lines.len() - 1;
        law_absent_has_no_value(rest, wanted);
        if is_absent(lines, wanted) {
            assert(!is_named(lines[last].0, wanted));
            assert forall|j: int| 0 <= j < rest.len() implies !is_named(
                #[trigger] rest[j].0,
                wanted,
            ) by {
                assert(rest[j] == lines[j]);
            }
        } else {
            let j = choose|j: int| 0 <= j < lines.len() && is_named(#[trigger] lines[j].0, wanted);
            if j < last {
                assert(rest[j] == lines[j]);
            }
        }
    }
}

/// The peer that opens a connection is the one that the last line `X-PEER-SIG` writes in
/// hexadecimal; it is none where that line writes no peer, or no line has the name.
pub proof fn law_opening_peer(headers: Vec<Header>, k: int, r: (PeerId, String))
    requires
        call_ensures(handshake, (&headers,), r),
    ensures
        is_last(header_views(headers@), k, "X-PEER-SIG"@) ==> match visible(headers@[k].value@) {
            Some(text) => match peer_of_hex(text) {
                Some(peer) => r.0.0@ == peer,
                None => forall|i: int| 0 <= i < 20 ==> #[trigger] r.0.0@[i] == 0,
            },
            None => forall|i: int| 0 <= i < 20 ==> #[trigger] r.0.0@[i] == 0,
        },
        is_absent(header_views(headers@), "X-PEER-SIG"@) ==> forall|i: int|
            0 <= i < 20 ==> #[trigger] r.0.0@[i] == 0,
{
    let lines = header_views(headers@);
    law_absent_has_no_value(lines, "X-PEER-SIG"@);
    if is_last(lines, k, "X-PEER-SIG"@) {
        law_last_line_counts(lines, k, "X-PEER-SIG"@);
    }
    assert(crate::peer::hex_digits(Seq::<char>::empty()) == Seq::<char>::empty());
    assert(peer_of_hex(Seq::<char>::empty()) is None);
}

/// What the peer says of itself is the last line `X-PEER-DATA`, character by character; it is
/// empty where that line is no text, or no line has the name.
pub proof fn law_opening_data(headers: Vec<Header>, k: int, r: (PeerId, String))
    requires
        call_ensures(handshake, (&headers,), r),
    ensures
        is_last(header_views(headers@), k, "X-PEER-DATA"@) ==> match visible(headers@[k].value@) {
            Some(text) => r.1@ == text,
            None => r.1@.len() == 0,
        },
        is_absent(header_views(headers@), "X-PEER-DATA"@) ==> r.1@.len() == 0,
{
    let lines = header_views(headers@);
    law_absent_has_no_value(lines, "X-PEER-DATA"@);
    if is_last(lines, k, "X-PEER-DATA"@) {
        law_last_line_counts(lines, k, "X-PEER-DATA"@);
    }
}

/// A connection goes by the number it was given and belongs to the peer that opened it; the
/// router is told both, what the peer said of itself, and the connection's handle.
pub proof fn law_opening_is_told<W, S>(
    id: u64,
    peer: PeerId,
    data: String,
    to: W,
    r: (WsConnection, RpcMessage<W, S>),
)
    requires
        call_ensures(WsConnection::open::<W, S>, (id, Some((peer, data)), to), r),
    ensures
        r.0.id == id,
        r.0.peer.0@ == peer.0@,
        r.1 matches RpcMessage::Open(n, p, d, w) && n == id && p.0@ == peer.0@ && d@ == data@ && w
            == to,
{
}

/// Where nothing was read of the opening lines, the connection has no peer, and nothing is
/// said of one.
pub proof fn law_opening_without_greeting<W, S>(
    id: u64,
    to: W,
    r: (WsConnection, RpcMessage<W, S>),
)
    requires
        call_ensures(WsConnection::open::<W, S>, (id, None, to), r),
    ensures
        r.0.id == id,
        forall|i: int| 0 <= i < 20 ==> #[trigger] r.0.peer.0@[i] == 0,
        r.1 matches RpcMessage::Open(n, p, d, w) && n == id && p.0@ == r.0.peer.0@ && d@.len() == 0
            && w == to,
{
}

/// A connection under a number drawn at random is opened in the same way, whatever the number.
pub proof fn law_opening_at_random<W, S>(
    greeting: Option<(PeerId, String)>,
    to: W,
    r: (WsConnection, RpcMessage<W, S>),
)
    requires
        call_ensures(WsConnection::new::<W, S>, (greeting, to), r),
    ensures
        r.1 matches RpcMessage::Open(n, p, d, w) && n == r.0.id && p.0@ == r.0.peer.0@ && w == to
            && match greeting {
            Some((peer, data)) => p.0@ == peer.0@ && d@ == data@,
            None => d@.len() == 0 && forall|i: int| 0 <= i < 20 ==> #[trigger] p.0@[i] == 0,
        },
{
}

// ---- What comes in ----

/// A text, and the reason for an end, come in as they are; an end without a reason comes in as
/// the empty text.
pub proof fn law_texts_come_in(
    text: String,
    r: Option<String>,
    closed: Option<String>,
    plain: Option<String>,
)
    requires
        call_ensures(frame_text, (Frame::Text(text),), r),
        call_ensures(frame_text, (Frame::Close(Some(text)),), closed),
        call_ensures(frame_text, (Frame::Close(None),), plain),
    ensures
        r is Some && r->0@ == text@,
        closed is Some && closed->0@ == text@,
        plain is Some && plain->0@.len() == 0,
{
}

/// Bytes of any kind come in as the text that they encode in UTF-8, and as none where they
/// encode none.
pub proof fn law_bytes_come_in(data: Vec<u8>, frame: Frame, r: Option<String>)
    requires
        frame == Frame::Binary(data) || frame == Frame::Ping(data) || frame == Frame::Pong(data),
        call_ensures(frame_text, (frame,), r),
    ensures
        r matches Some(text) ==> data@ == vstd::utf8::encode_utf8(text@),
        r is None ==> forall|text: Seq<char>| data@ != #[trigger] vstd::utf8::encode_utf8(text),
{
    if let Some(text) = r {
        law_utf8_is_undone(data@, text@);
    } else {
        assert forall|text: Seq<char>| data@ != #[trigger] vstd::utf8::encode_utf8(text) by {
            law_utf8_is_undone(data@, text);
        }
    }
}

/// The text `ping` is answered at once with `pong`.
pub proof fn law_ping_is_answered<W, S>(c: WsConnection, text: String, r: WsAction<W, S>)
    requires
        call_ensures(WsConnection::step::<W, S>, (&c, WsEvent::Stream(text)), r),
        text@ == "ping"@,
    ensures
        r matches WsAction::Write(answer) && answer@ == "pong"@,
{
}

/// Whether a connection goes on from what a text was read as: a request is passed on under
/// the peer that it names, or else that of the connection; all else is refused in writing.
pub open spec fn passes_or_refuses<W, S>(
    c: WsConnection,
    parsed: Parsed,
    action: WsAction<W, S>,
) -> bool {
    match parsed {
        Ok((named, param)) => action matches WsAction::Forward(
            RpcMessage::Request(id, peer, content, handle),
        ) && id == c.id && content == param && handle is None && acts(
            peer.0@,
            named.0@,
            c.peer.0@,
        ),
        Err((error, number)) => action matches WsAction::Write(text) && text@ == json_text(
            error_object(error, number),
        ),
    }
}

/// What was read as a request is passed on without a handle, all else is refused.
pub proof fn law_text_is_passed_or_refused<W, S>(
    c: WsConnection,
    parsed: Parsed,
    r: WsAction<W, S>,
)
    requires
        call_ensures(WsConnection::take_parsed::<W, S>, (&c, parsed), r),
    ensures
        passes_or_refuses(c, parsed, r),
{
    if let Ok((named, param)) = parsed {
        if forall|i: int| 0 <= i < 20 ==> #[trigger] named.0@[i] == 0 {
            assert(named@ =~= no_peer());
        }
    }
}

/// Every text but `ping` is read as a request, and passed on or refused.
pub proof fn law_text_is_read<W, S>(c: WsConnection, text: String, r: WsAction<W, S>)
    requires
        call_ensures(WsConnection::step::<W, S>, (&c, WsEvent::Stream(text)), r),
        text@ != "ping"@,
    ensures
        passes_or_refuses(c, jsonrpc_parsed(text@), r),
{
    if let Ok((named, param)) = jsonrpc_parsed(text@) {
        if forall|i: int| 0 <= i < 20 ==> #[trigger] named.0@[i] == 0 {
            assert(named@ =~= no_peer());
        }
    }
}

// ---- What goes out ----

/// A response is written as the JSON text of its value, any other message as null.
pub proof fn law_messages_are_written<W, S>(
    c: WsConnection,
    message: RpcMessage<W, S>,
    r: WsAction<W, S>,
)
    requires
        call_ensures(WsConnection::step::<W, S>, (&c, WsEvent::Out(message)), r),
    ensures
        r is Write,
        message matches RpcMessage::Response(value) ==> r->Write_0@ == json_text(value),
        !(message is Response) ==> r->Write_0@ == "null"@,
{
}

/// A connection that ends tells the router so, under its number.
pub proof fn law_end_is_told<W, S>(c: WsConnection, r: WsAction<W, S>)
    requires
        call_ensures(WsConnection::step::<W, S>, (&c, WsEvent::Closed), r),
    ensures
        r matches WsAction::Leave(RpcMessage::Close(id)) && id == c.id,
{
}

} // verus!
