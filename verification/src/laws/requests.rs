//! What holds of requests over HTTP: what a head amounts to, and what a connection does from
//! its first read to its end.

use vstd::prelude::*;

use crate::http::{
    check_head, homepage, parse_req, peer_of_headers, take_parsed, take_request, Head, HttpAction,
    HttpConnection, HttpEvent, HttpStage, HttpStageView, HttpView, HTTP,
};
use crate::jsonrpc::{Parsed, RpcParam};
use crate::message::RpcMessage;
use crate::peer::PeerId;
use crate::text::{Header, HeaderView};
use tdn_types::rpc::RpcError;
#[allow(unused_imports)]
use crate::http::{first_named, header_peer, request_head, RESPONSE_HEAD};
#[allow(unused_imports)]
use crate::jsonrpc::{error_object, json_text, jsonrpc_parsed};
#[allow(unused_imports)]
use crate::peer::{no_peer, peer_of_hex};
#[allow(unused_imports)]
use crate::text::{header_views, is_named, length_of, text_of, utf8};

verus! {

// ---- Header lines ----

/// Whether line `k` is the first one of this name.
pub open spec fn is_first(lines: Seq<HeaderView>, k: int, wanted: Seq<char>) -> bool {
    &&& 0 <= k < lines.len()
    &&& is_named(lines[k].0, wanted)
    &&& forall|j: int| 0 <= j < k ==> !is_named(#[trigger] lines[j].0, wanted)
}

/// The value that counts is that of the first line of the name, wherever it stands.
pub proof fn law_first_line_counts(lines: Seq<HeaderView>, k: int, wanted: Seq<char>)
    requires
        is_first(lines, k, wanted),
    ensures
        first_named(lines, wanted) == Some(lines[k].1),
    decreases lines.len(),
{
    if k > 0 {
        let rest = lines.drop_first();
        assert(!is_named(lines[0].0, wanted));
        assert(rest[k - 1] == lines[k]);
        assert forall|j: int| 0 <= j < k - 1 implies !is_named(#[trigger] rest[j].0, wanted) by {
            assert(rest[j] == lines[j + 1]);
        }
        law_first_line_counts(rest, k - 1, wanted);
    }
}

/// There is no value if and only if no line has the name.
pub proof fn law_no_line_no_value(lines: Seq<HeaderView>, wanted: Seq<char>)
    ensures
        first_named(lines, wanted) is None <==> forall|j: int|
            0 <= j < lines.len() ==> !is_named(#[trigger] lines[j].0, wanted),
    decreases lines.len(),
{
    if lines.len() > 0 {
        let rest = lines.drop_first();
        law_no_line_no_value(rest, wanted);
        if forall|j: int| 0 <= j < lines.len() ==> !is_named(#[trigger] lines[j].0, wanted) {
            assert(!is_named(lines[0].0, wanted));
            assert forall|j: int| 0 <= j < rest.len() implies !is_named(
                #[trigger] rest[j].0,
                wanted,
            ) by {
                assert(rest[j] == lines[j + 1]);
            }
        } else {
            let j = choose|j: int| 0 <= j < lines.len() && is_named(#[trigger] lines[j].0, wanted);
            if j > 0 {
                assert(rest[j - 1] == lines[j]);
            }
        }
    }
}

/// Whether a line is named `X-PEER` and its value is the UTF-8 of a peer in hexadecimal.
pub open spec fn tells_peer(line: HeaderView) -> bool {
    is_named(line.0, "X-PEER"@) && utf8(line.1) is Some && peer_of_hex(utf8(line.1)->0) is Some
}

/// Of the lines that tell a peer the last one counts, wherever it stands; where none does, no
/// peer is told.
pub proof fn law_last_peer_line_counts(lines: Seq<HeaderView>, k: int)
    requires
        0 <= k <= lines.len(),
        k < lines.len() ==> tells_peer(lines[k]),
        k < lines.len() ==> forall|j: int| k < j < lines.len() ==> !tells_peer(#[trigger] lines[j]),
        k == lines.len() ==> forall|j: int| 0 <= j < lines.len() ==> !tells_peer(#[trigger] lines[j]),
    ensures
        k < lines.len() ==> header_peer(lines) == peer_of_hex(utf8(lines[k].1)->0)->0,
        k == lines.len() ==> header_peer(lines) == Seq::new(20, |i: int| 0u8),
    decreases lines.len(),
{
    if lines.len() > 0 && k != lines.len() - 1 {
        let rest = lines.drop_last();
        let last = lines.len() - 1;
        assert(!tells_peer(lines[last]));
        if k == lines.len() {
            assert forall|j: int| 0 <= j < rest.len() implies !tells_peer(#[trigger] rest[j]) by {
                assert(rest[j] == lines[j]);
            }
            law_last_peer_line_counts(rest, rest.len() as int);
        } else {
            assert(rest[k] == lines[k]);
            assert forall|j: int| k < j < rest.len() implies !tells_peer(#[trigger] rest[j]) by {
                assert(rest[j] == lines[j]);
            }
            law_last_peer_line_counts(rest, k);
        }
    }
}

/// The same of the function that reads the peer out of header lines.
pub proof fn law_header_peer_is_read(headers: Vec<Header>, k: int, r: PeerId)
    requires
        call_ensures(peer_of_headers, (&headers,), r),
        0 <= k <= headers@.len(),
        k < headers@.len() ==> tells_peer((headers@[k].name@, headers@[k].value@)),
        forall|j: int|
            0 <= j < headers@.len() && (k < j || k == headers@.len()) ==> !tells_peer(
                (#[trigger] headers@[j].name@, headers@[j].value@),
            ),
    ensures
        k < headers@.len() ==> Some(r.0@) == peer_of_hex(utf8(headers@[k].value@)->0),
        k == headers@.len() ==> forall|i: int| 0 <= i < 20 ==> #[trigger] r.0@[i] == 0,
{
    let lines = header_views(headers@);
    assert forall|j: int|
        0 <= j < lines.len() && (k < j || k == lines.len()) implies !tells_peer(#[trigger] lines[j]) by {
        assert(headers@[j].name@ == lines[j].0);
    }
    law_last_peer_line_counts(lines, k);
}

// ---- Heads ----

/// A request with a complete head is found complete if and only if at least as many bytes
/// follow the head as its first line `content-length` announces, however many that is; if
/// fewer do, just that number is asked for.
pub proof fn law_complete_iff_all_is_there(
    head: Head,
    len: usize,
    amt: usize,
    k: int,
    n: usize,
    r: Result<HTTP, &'static str>,
)
    requires
        call_ensures(check_head, (Some(head), len), r),
        head.end == Some(amt),
        is_first(header_views(head.headers@), k, "content-length"@),
        length_of(head.headers@[k].value@) == Some(n),
    ensures
        len - amt >= n <==> (r matches Ok(request) && request is Complete),
        r matches Ok(HTTP::Complete(start, lines)) ==> start == amt && header_views(lines@)
            == header_views(head.headers@),
        len - amt < n ==> (r matches Ok(HTTP::NeedMore(start, need)) && start == amt && need == n),
{
    law_first_line_counts(header_views(head.headers@), k, "content-length"@);
    if let Ok(HTTP::Complete(start, lines)) = r {
        assert(r->Ok_0@ == HttpView::Complete(start, header_views(lines@)));
    } else if let Ok(HTTP::NeedMore(start, need)) = r {
        assert(r->Ok_0@ == HttpView::NeedMore(start, need));
    }
}

/// A malformed head, one without a line `content-length`, one whose first such line is no
/// length, and one that is not complete are each refused, in this order, with their reasons.
pub proof fn law_bad_heads_are_refused(
    head: Head,
    len: usize,
    k: int,
    malformed: Result<HTTP, &'static str>,
    r: Result<HTTP, &'static str>,
)
    requires
        call_ensures(check_head, (None, len), malformed),
        call_ensures(check_head, (Some(head), len), r),
    ensures
        malformed matches Err(reason) && reason@ == "HTTP parse error"@,
        (forall|j: int|
            0 <= j < head.headers@.len() ==> !is_named(
                #[trigger] head.headers@[j].name@,
                "content-length"@,
            )) ==> (r matches Err(reason) && reason@ == "HTTP header is invalid"@),
        is_first(header_views(head.headers@), k, "content-length"@) && length_of(
            head.headers@[k].value@,
        ) is None ==> (r matches Err(reason) && reason@ == "HTTP length is invalid"@),
        is_first(header_views(head.headers@), k, "content-length"@) && length_of(
            head.headers@[k].value@,
        ) is Some && head.end is None ==> (r matches Err(reason) && reason@ == "HTTP parse error"@),
{
    let lines = header_views(head.headers@);
    law_no_line_no_value(lines, "content-length"@);
    if forall|j: int|
        0 <= j < head.headers@.len() ==> !is_named(
            #[trigger] head.headers@[j].name@,
            "content-length"@,
        ) {
        assert forall|j: int| 0 <= j < lines.len() implies !is_named(
            #[trigger] lines[j].0,
            "content-length"@,
        ) by {
            assert(head.headers@[j].name@ == lines[j].0);
        }
    }
    if is_first(lines, k, "content-length"@) {
        law_first_line_counts(lines, k, "content-length"@);
    }
}

/// The same of the bytes that were read, for the head that they hold.
pub proof fn law_requests_are_read(
    src: &[u8],
    max_headers: u16,
    lines: Seq<HeaderView>,
    end: Option<usize>,
    k: int,
    r: Result<HTTP, &'static str>,
)
    requires
        call_ensures(parse_req, (src, max_headers), r),
        request_head(src@, max_headers) == Some((end, lines)),
        is_first(lines, k, "content-length"@),
    ensures
        length_of(lines[k].1) is None ==> (r matches Err(reason) && reason@
            == "HTTP length is invalid"@),
        length_of(lines[k].1) is Some && end is None ==> (r matches Err(reason) && reason@
            == "HTTP parse error"@),
        length_of(lines[k].1) matches Some(n) ==> (end matches Some(amt) ==> {
            &&& src@.len() - amt >= n ==> (r matches Ok(HTTP::Complete(start, headers)) && start
                == amt && header_views(headers@) == lines)
            &&& src@.len() - amt < n ==> (r matches Ok(HTTP::NeedMore(start, need)) && start == amt
                && need == n)
        }),
{
    law_first_line_counts(lines, k, "content-length"@);
    if let Ok(HTTP::Complete(start, headers)) = r {
        assert(r->Ok_0@ == HttpView::Complete(start, header_views(headers@)));
    } else if let Ok(HTTP::NeedMore(start, need)) = r {
        assert(r->Ok_0@ == HttpView::NeedMore(start, need));
    }
}

/// Bytes that hold a malformed head, or one without a line `content-length`, are refused.
pub proof fn law_no_request_is_read(
    src: &[u8],
    max_headers: u16,
    r: Result<HTTP, &'static str>,
)
    requires
        call_ensures(parse_req, (src, max_headers), r),
    ensures
        request_head(src@, max_headers) is None ==> (r matches Err(reason) && reason@
            == "HTTP parse error"@),
        request_head(src@, max_headers) matches Some((_, lines)) ==> (forall|j: int|
            0 <= j < lines.len() ==> !is_named(#[trigger] lines[j].0, "content-length"@)) ==> (
        r matches Err(reason) && reason@ == "HTTP header is invalid"@),
{
    if let Some((_, lines)) = request_head(src@, max_headers) {
        law_no_line_no_value(lines, "content-length"@);
    }
}

// ---- What becomes of a body ----

/// Whether `peer` is the one that a request is made under that names `named`, on a connection
/// of the peer `carried`: the named one as soon as one of its bytes is not zero.
pub open spec fn acts(peer: Seq<u8>, named: Seq<u8>, carried: Seq<u8>) -> bool {
    &&& (exists|i: int| 0 <= i < 20 && #[trigger] named[i] != 0) ==> peer == named
    &&& (forall|i: int| 0 <= i < 20 ==> #[trigger] named[i] == 0) ==> peer == carried
}

/// Whether a connection that came to `stage` passes this request on, with its handle.
pub open spec fn passes_on<W, S>(
    id: u64,
    sender: S,
    carried: Seq<u8>,
    named: PeerId,
    param: RpcParam,
    stage: HttpStage<S>,
    action: HttpAction<W, S>,
) -> bool {
    &&& stage matches HttpStage::Answer(None)
    &&& action matches HttpAction::Forward(RpcMessage::Request(n, peer, content, Some(to))) && n
        == id && content == param && to == sender && acts(peer.0@, named.0@, carried)
}

/// Whether a connection that came to `stage` refuses what it read, in writing.
pub open spec fn refuses<W, S>(
    sender: S,
    error: RpcError,
    number: u64,
    stage: HttpStage<S>,
    action: HttpAction<W, S>,
) -> bool {
    &&& stage matches HttpStage::Answer(Some(to)) && to == sender
    &&& action matches HttpAction::Refuse(text) && text@ == RESPONSE_HEAD@ + json_text(
        error_object(error, number),
    )
}

/// Whether a connection goes on from what its body was read as: a request is passed on, all
/// else is refused.
pub open spec fn goes_on<W, S>(
    id: u64,
    sender: S,
    carried: Seq<u8>,
    parsed: Parsed,
    stage: HttpStage<S>,
    action: HttpAction<W, S>,
) -> bool {
    &&& parsed matches Ok((named, param)) ==> passes_on(
        id,
        sender,
        carried,
        named,
        param,
        stage,
        action,
    )
    &&& parsed matches Err((error, number)) ==> refuses(sender, error, number, stage, action)
}

proof fn lemma_goes_on<W, S>(
    id: u64,
    sender: S,
    carried: Seq<u8>,
    parsed: Parsed,
    stage: HttpStage<S>,
    action: HttpAction<W, S>,
)
    requires
        (stage@, action@) == crate::http::http_parsed::<W, S>(id, sender, carried, parsed),
    ensures
        goes_on(id, sender, carried, parsed, stage, action),
{
    if let Ok((named, param)) = parsed {
        if forall|i: int| 0 <= i < 20 ==> #[trigger] named.0@[i] == 0 {
            assert(named@ =~= no_peer());
        }
    }
}

/// What was read as a request is passed on, under the peer that it names by one byte or else
/// under the connection's, and all else is refused in writing.
pub proof fn law_parsed_goes_on<W, S>(
    id: u64,
    sender: S,
    carried: PeerId,
    parsed: Parsed,
    r: (HttpStage<S>, HttpAction<W, S>),
)
    requires
        call_ensures(take_parsed::<W, S>, (id, sender, carried, parsed), r),
    ensures
        goes_on(id, sender, carried.0@, parsed, r.0, r.1),
{
    lemma_goes_on(id, sender, carried.0@, parsed, r.0, r.1);
}

/// Every answer starts with the same lines.
pub proof fn law_response_head()
    ensures
        RESPONSE_HEAD@
            == "HTTP/1.1 200 OK\r\nAccess-Control-Allow-Origin:*\r\nCross-Origin-Resource-Policy:cross-origin\r\nContent-Type:application/json;charset=UTF-8\r\n\r\n"@,
{
}

/// From the first bytes, what follows the head is read as the request where it is complete,
/// and kept where it is not; a refused head ends the connection.
pub proof fn law_request_goes_on<W, S>(
    id: u64,
    sender: S,
    bytes: Vec<u8>,
    request: Result<HTTP, &'static str>,
    r: (HttpStage<S>, HttpAction<W, S>),
)
    requires
        call_ensures(take_request::<W, S>, (id, sender, bytes, request), r),
    ensures
        request matches Ok(HTTP::Complete(amt, lines)) ==> goes_on(
            id,
            sender,
            header_peer(header_views(lines@)),
            jsonrpc_parsed(text_of(bytes@.skip(amt as int))),
            r.0,
            r.1,
        ),
        request matches Ok(HTTP::NeedMore(amt, n)) ==> r.1 is Read && (
        r.0 matches HttpStage::Body(to, need, body) && to == sender && need == n && body@
            == bytes@.skip(amt as int)),
        request matches Err(reason) ==> r.0 is Done && (r.1 matches HttpAction::Reject(told)
            && told@ == reason@),
{
    if let Ok(HTTP::Complete(amt, lines)) = request {
        assert(request->Ok_0@ == HttpView::Complete(amt, header_views(lines@)));
        lemma_goes_on(
            id,
            sender,
            header_peer(header_views(lines@)),
            jsonrpc_parsed(text_of(bytes@.skip(amt as int))),
            r.0,
            r.1,
        );
    } else if let Ok(HTTP::NeedMore(amt, n)) = request {
        assert(request->Ok_0@ == HttpView::NeedMore(amt, n));
        assert(r.0@ == HttpStageView::Body(sender, n, bytes@.skip(amt as int)));
    }
}

// ---- Connections ----

/// A new connection waits for its first bytes, with its handle.
pub proof fn law_new_connection_waits<S>(sender: S, r: HttpConnection<S>)
    requires
        call_ensures(HttpConnection::<S>::new, (sender,), r),
    ensures
        r.stage matches HttpStage::Head(to) && to == sender,
{
}

/// First bytes without a request end the connection.
pub proof fn law_first_read_without_request<W, S>(
    c: HttpConnection<S>,
    bytes: Vec<u8>,
    r: (HttpConnection<S>, HttpAction<W, S>),
)
    requires
        call_ensures(HttpConnection::<S>::step::<W>, (c, HttpEvent::Read(bytes)), r),
        c.stage is Head,
    ensures
        ({
            let ends = r.0.stage is Done && r.1 is Reject;
            match request_head(bytes@, 16) {
                None => ends && r.1->Reject_0@ == "HTTP parse error"@,
                Some((end, lines)) => {
                    &&& (forall|j: int|
                        0 <= j < lines.len() ==> !is_named(
                            #[trigger] lines[j].0,
                            "content-length"@,
                        )) ==> ends && r.1->Reject_0@ == "HTTP header is invalid"@
                    &&& forall|k: int| #[trigger]
                        is_first(lines, k, "content-length"@) && length_of(lines[k].1) is None
                            ==> ends && r.1->Reject_0@ == "HTTP length is invalid"@
                    &&& forall|k: int| #[trigger]
                        is_first(lines, k, "content-length"@) && length_of(lines[k].1) is Some
                            && end is None ==> ends && r.1->Reject_0@ == "HTTP parse error"@
                },
            }
        }),
{
    if let Some((end, lines)) = request_head(bytes@, 16) {
        law_no_line_no_value(lines, "content-length"@);
        assert forall|k: int| #[trigger] is_first(lines, k, "content-length"@) implies first_named(
            lines,
            "content-length"@,
        ) == Some(lines[k].1) by {
            law_first_line_counts(lines, k, "content-length"@);
        }
    }
}

/// An answer is written and ends the connection, whatever the answer is; where none comes any
/// more, the connection just ends.
pub proof fn law_answer_is_written<W, S>(
    c: HttpConnection<S>,
    message: RpcMessage<W, S>,
    r: (HttpConnection<S>, HttpAction<W, S>),
    gone: (HttpConnection<S>, HttpAction<W, S>),
)
    requires
        call_ensures(HttpConnection::<S>::step::<W>, (c, HttpEvent::Answered(message)), r),
        call_ensures(HttpConnection::<S>::step::<W>, (c, HttpEvent::Abandoned), gone),
        c.stage is Answer,
    ensures
        r.0.stage is Done && r.1 is Finish,
        message matches RpcMessage::Response(value) ==> r.1->Finish_0@ == RESPONSE_HEAD@
            + json_text(value),
        !(message is Response) ==> r.1->Finish_0@ == RESPONSE_HEAD@ + "null"@,
        gone.0.stage is Done && gone.1 is Stop,
{
}

/// A connection keeps its number. What it does not wait for leaves it as it is: reading
/// before the request is there, waiting after, and still at its end.
pub proof fn law_unawaited_events_change_nothing<W, S>(
    c: HttpConnection<S>,
    event: HttpEvent<W, S>,
    r: (HttpConnection<S>, HttpAction<W, S>),
)
    requires
        call_ensures(HttpConnection::<S>::step::<W>, (c, event), r),
    ensures
        r.0.id == c.id,
        c.stage is Done ==> r.0.stage is Done && r.1 is Stop,
        c.stage matches HttpStage::Head(to) ==> !(event is Read) ==> r.1 is Read && (
        r.0.stage matches HttpStage::Head(kept) && kept == to),
        c.stage matches HttpStage::Body(to, n, body) ==> !(event is Read) ==> r.1 is Read && (
        r.0.stage matches HttpStage::Body(kept, need, bytes) && kept == to && need == n && bytes@
            == body@),
        c.stage matches HttpStage::Answer(to) ==> event is Read ==> r.1 is Wait && (
        r.0.stage matches HttpStage::Answer(kept) && kept == to),
{
    if let HttpStage::Body(to, n, body) = c.stage {
        assert(c.stage@ == HttpStageView::Body(to, n, body@));
    }
}

/// A connection that reads a body puts what comes behind what it has; it goes on as soon as
/// the body is as long as announced, and reads on until then.
pub proof fn law_body_is_read<W, S>(
    c: HttpConnection<S>,
    sender: S,
    n: usize,
    body: Vec<u8>,
    bytes: Vec<u8>,
    r: (HttpConnection<S>, HttpAction<W, S>),
)
    requires
        call_ensures(HttpConnection::<S>::step::<W>, (c, HttpEvent::Read(bytes)), r),
        c.stage == HttpStage::Body(sender, n, body),
    ensures
        body@.len() + bytes@.len() >= n ==> goes_on(
            c.id,
            sender,
            Seq::new(20, |i: int| 0u8),
            jsonrpc_parsed(text_of(body@ + bytes@)),
            r.0.stage,
            r.1,
        ),
        body@.len() + bytes@.len() < n ==> r.1 is Read && (r.0.stage matches HttpStage::Body(
            kept,
            need,
            whole,
        ) && kept == sender && need == n && whole@ == body@ + bytes@),
{
    assert(c.stage@ == HttpStageView::Body(sender, n, body@));
    if body@.len() + bytes@.len() >= n {
        let nobody = Seq::new(20, |i: int| 0u8);
        assert(no_peer() =~= nobody);
        lemma_goes_on(
            c.id,
            sender,
            nobody,
            jsonrpc_parsed(text_of(body@ + bytes@)),
            r.0.stage,
            r.1,
        );
    } else {
        assert(r.0.stage@ == HttpStageView::Body(sender, n, body@ + bytes@));
    }
}

/// All that the first `n` reads brought.
pub open spec fn brought<W, S>(events: Seq<HttpEvent<W, S>>, n: int) -> Seq<u8>
    decreases n,
{
    if n <= 0 {
        Seq::empty()
    } else {
        match events[n - 1] {
            HttpEvent::Read(bytes) => brought(events, n - 1) + bytes@,
            _ => brought(events, n - 1),
        }
    }
}

/// Whether the first read of a connection brings a complete head of `amt` bytes, which
/// announces a body of `n` bytes in line `k`.
pub open spec fn announces<W, S>(
    events: Seq<HttpEvent<W, S>>,
    lines: Seq<HeaderView>,
    amt: usize,
    k: int,
    n: usize,
) -> bool {
    &&& events.len() > 0
    &&& forall|i: int| 0 <= i < events.len() ==> #[trigger] events[i] is Read
    &&& request_head(brought(events, 1), 16) == Some((Some(amt), lines))
    &&& amt <= brought(events, 1).len()
    &&& is_first(lines, k, "content-length"@)
    &&& length_of(lines[k].1) == Some(n)
}

/// No request is passed on or refused before as many bytes of the body were read as the head
/// announces: until then the connection keeps what it read, and reads on.
pub proof fn law_nothing_before_all_is_there<W, S>(
    stages: Seq<HttpConnection<S>>,
    events: Seq<HttpEvent<W, S>>,
    actions: Seq<HttpAction<W, S>>,
    sender: S,
    lines: Seq<HeaderView>,
    amt: usize,
    k: int,
    n: usize,
    m: int,
)
    requires
        stages.len() == events.len() + 1,
        actions.len() == events.len(),
        forall|i: int|
            0 <= i < events.len() ==> call_ensures(
                HttpConnection::<S>::step::<W>,
                (stages[i], #[trigger] events[i]),
                (stages[i + 1], actions[i]),
            ),
        stages[0].stage matches HttpStage::Head(to) && to == sender,
        announces(events, lines, amt, k, n),
        1 <= m <= events.len(),
        brought(events, m).len() - amt < n,
    ensures
        actions[m - 1] is Read,
        stages[m].id == stages[0].id,
        stages[m].stage matches HttpStage::Body(to, need, body) && to == sender && need == n
            && body@ == brought(events, m).skip(amt as int),
    decreases m,
{
    reveal_with_fuel(brought, 2);
    law_first_line_counts(lines, k, "content-length"@);
    let before = events[m - 1];
    assert(before is Read);
    if m == 1 {
        let bytes = before->Read_0;
        assert(brought(events, 1) =~= bytes@);
        assert(stages[1].stage@ == HttpStageView::Body(
            sender,
            n,
            bytes@.skip(amt as int),
        ));
    } else {
        let bytes = before->Read_0;
        law_nothing_before_all_is_there(
            stages,
            events,
            actions,
            sender,
            lines,
            amt,
            k,
            n,
            m - 1,
        );
        lemma_brings_more(events, 1, m - 1);
        let kept = brought(events, m - 1).skip(amt as int);
        assert(kept + bytes@ =~= brought(events, m).skip(amt as int));
        assert(stages[m].stage@ == HttpStageView::Body(sender, n, kept + bytes@));
    }
}

proof fn lemma_brings_more<W, S>(events: Seq<HttpEvent<W, S>>, a: int, b: int)
    requires
        0 <= a <= b,
    ensures
        brought(events, a).len() <= brought(events, b).len(),
    decreases b - a,
{
    if a < b {
        lemma_brings_more(events, a, b - 1);
    }
}

/// Once as many bytes of the body were read as the head announces, all that followed the head
/// is read as the request and passed on or refused: with the peer that the header lines tell
/// where one read brought it all, and without one where it took several.
pub proof fn law_all_is_there_at_last<W, S>(
    stages: Seq<HttpConnection<S>>,
    events: Seq<HttpEvent<W, S>>,
    actions: Seq<HttpAction<W, S>>,
    sender: S,
    lines: Seq<HeaderView>,
    amt: usize,
    k: int,
    n: usize,
    m: int,
)
    requires
        stages.len() == events.len() + 1,
        actions.len() == events.len(),
        forall|i: int|
            0 <= i < events.len() ==> call_ensures(
                HttpConnection::<S>::step::<W>,
                (stages[i], #[trigger] events[i]),
                (stages[i + 1], actions[i]),
            ),
        stages[0].stage matches HttpStage::Head(to) && to == sender,
        announces(events, lines, amt, k, n),
        1 <= m <= events.len(),
        brought(events, m).len() - amt >= n,
        m > 1 ==> brought(events, m - 1).len() - amt < n,
    ensures
        stages[m].id == stages[0].id,
        goes_on(
            stages[0].id,
            sender,
            if m == 1 {
                header_peer(lines)
            } else {
                Seq::new(20, |i: int| 0u8)
            },
            jsonrpc_parsed(text_of(brought(events, m).skip(amt as int))),
            stages[m].stage,
            actions[m - 1],
        ),
{
    reveal_with_fuel(brought, 2);
    law_first_line_counts(lines, k, "content-length"@);
    let last = events[m - 1];
    assert(last is Read);
    let bytes = last->Read_0;
    let body = brought(events, m).skip(amt as int);
    let carried = if m == 1 {
        header_peer(lines)
    } else {
        Seq::new(20, |i: int| 0u8)
    };
    if m == 1 {
        assert(brought(events, 1) =~= bytes@);
    } else {
        law_nothing_before_all_is_there(
            stages,
            events,
            actions,
            sender,
            lines,
            amt,
            k,
            n,
            m - 1,
        );
        lemma_brings_more(events, 1, m - 1);
        assert(brought(events, m - 1).skip(amt as int) + bytes@ =~= body);
        assert(no_peer() =~= carried);
    }
    lemma_goes_on(
        stages[0].id,
        sender,
        carried,
        jsonrpc_parsed(text_of(body)),
        stages[m].stage,
        actions[m - 1],
    );
}

/// The page at the root is the index file where it was read, and else says what is wrong.
pub proof fn law_homepage<E>(page: String, error: E, read: String, unread: String, unset: String)
    requires
        call_ensures(homepage::<E>, (Some(Ok(page)),), read),
        call_ensures(homepage::<E>, (Some(Err(error)),), unread),
        call_ensures(homepage::<E>, (None,), unset),
    ensures
        read@ == page@,
        unread@ == "Error Homepage."@,
        unset@ == "No Homepage."@,
{
}

} // verus!
