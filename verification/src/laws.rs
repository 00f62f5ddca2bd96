//! What holds of whole runs: of the router over any sequence of events, of a connection
//! over any sequence of reads, and of the two together.

pub mod requests;
pub mod routing;
pub mod sessions;
pub mod starting;
pub mod values;

use vstd::prelude::*;

use crate::http::{HttpActionView, HttpEventView, HttpStageView, HttpView};
use crate::jsonrpc::RpcParam;
use crate::message::{RpcMessageView, RpcRecvView};
use crate::peer::PeerId;
use crate::router::{RouterActionView, RouterEventView, RouterView};
use crate::ws::{WsActionView, WsEventView};
#[allow(unused_imports)]
use crate::http::{http_body, http_step, request_head, request_of, MAX_HEADERS, RESPONSE_HEAD};
#[allow(unused_imports)]
use crate::jsonrpc::{json_text, jsonrpc_parsed, refusal};
#[allow(unused_imports)]
use crate::peer::{acting_peer, no_peer};
#[allow(unused_imports)]
use crate::router::{router_start, router_step};
#[allow(unused_imports)]
use crate::text::text_of;
#[allow(unused_imports)]
use crate::ws::ws_step;

verus! {

// ---- The router ----

/// The connection that an event is about.
pub open spec fn about<W, S>(event: RouterEventView<W, S>) -> Option<u64> {
    match event {
        RouterEventView::Leave(id) => Some(id),
        RouterEventView::Event(id, _) => Some(id),
        RouterEventView::Stream(RpcMessageView::Request(id, _, _, _)) => Some(id),
        RouterEventView::Stream(RpcMessageView::Open(id, _, _, _)) => Some(id),
        RouterEventView::Stream(RpcMessageView::Close(id)) => Some(id),
        _ => None,
    }
}

/// Whether an event opens the connection `id`, or ends it.
pub open spec fn opens_or_ends<W, S>(event: RouterEventView<W, S>, id: u64) -> bool {
    match event {
        RouterEventView::Leave(n) => n == id,
        RouterEventView::Stream(RpcMessageView::Open(n, _, _, _)) => n == id,
        RouterEventView::Stream(RpcMessageView::Close(n)) => n == id,
        _ => false,
    }
}

/// Whether an event opens the connection `id`.
pub open spec fn opens<W, S>(event: RouterEventView<W, S>, id: u64) -> bool {
    event matches RouterEventView::Stream(RpcMessageView::Open(n, _, _, _)) && n == id
}

/// Whether an event is a request on the connection `id` that leaves a handle for its answer.
pub open spec fn leaves_handle<W, S>(event: RouterEventView<W, S>, id: u64) -> bool {
    event matches RouterEventView::Stream(RpcMessageView::Request(n, _, _, Some(_))) && n == id
}

/// Whether an event may decide over the request that waits on the connection `id`: it opens
/// or closes the connection, sends something to it, or is another request with a handle.
pub open spec fn decides<W, S>(event: RouterEventView<W, S>, id: u64) -> bool {
    ||| opens(event, id)
    ||| leaves_handle(event, id)
    ||| event matches RouterEventView::Event(n, _) && n == id
    ||| event == RouterEventView::<W, S>::Stream(RpcMessageView::Close(id))
}

/// What a router knows after a sequence of events.
pub open spec fn router_run<W, S>(
    s: RouterView<W, S>,
    events: Seq<RouterEventView<W, S>>,
) -> RouterView<W, S>
    decreases events.len(),
{
    if events.len() == 0 {
        s
    } else {
        router_step(router_run(s, events.drop_last()), events.last()).0
    }
}

/// What a router knows of one connection: its handle, and the handle of the request that
/// waits on it.
pub open spec fn knows<W, S>(s: RouterView<W, S>, id: u64) -> (Option<W>, Option<S>) {
    (
        if s.open.contains_key(id) {
            Some(s.open[id])
        } else {
            None
        },
        if s.waiting.contains_key(id) {
            Some(s.waiting[id])
        } else {
            None
        },
    )
}

/// Events about other connections change nothing that the router knows of a connection.
pub proof fn law_connections_are_apart<W, S>(
    s: RouterView<W, S>,
    events: Seq<RouterEventView<W, S>>,
    id: u64,
)
    requires
        forall|i: int| 0 <= i < events.len() ==> about(#[trigger] events[i]) != Some(id),
    ensures
        knows(router_run(s, events), id) == knows(s, id),
    decreases events.len(),
{
    if events.len() > 0 {
        law_connections_are_apart(s, events.drop_last(), id);
        assert(about(events[events.len() - 1]) != Some(id));
    }
}

/// The answer to a request that left a handle goes to that handle, whatever else happens in
/// between, and the request then waits no more.
pub proof fn law_answer_finds_request<W, S>(
    s: RouterView<W, S>,
    id: u64,
    peer: Seq<u8>,
    param: RpcParam,
    to: S,
    between: Seq<RouterEventView<W, S>>,
    answer: RpcParam,
)
    requires
        !s.open.contains_key(id),
        forall|i: int| 0 <= i < between.len() ==> !decides(#[trigger] between[i], id),
    ensures
        ({
            let asked = router_step(
                s,
                RouterEventView::Stream(RpcMessageView::Request(id, peer, param, Some(to))),
            ).0;
            let before = router_run(asked, between);
            let (after, action) = router_step(before, RouterEventView::Event(id, answer));
            &&& action == RouterActionView::<W, S>::Reply(to, RpcMessageView::Response(answer))
            &&& knows(after, id) == (None::<W>, None::<S>)
        }),
{
    let asked = router_step(
        s,
        RouterEventView::Stream(RpcMessageView::Request(id, peer, param, Some(to))),
    ).0;
    lemma_keeps_waiting(asked, id, to, between);
}

proof fn lemma_keeps_waiting<W, S>(
    s: RouterView<W, S>,
    id: u64,
    to: S,
    events: Seq<RouterEventView<W, S>>,
)
    requires
        knows(s, id) == (None::<W>, Some(to)),
        forall|i: int| 0 <= i < events.len() ==> !decides(#[trigger] events[i], id),
    ensures
        knows(router_run(s, events), id) == (None::<W>, Some(to)),
    decreases events.len(),
{
    if events.len() > 0 {
        lemma_keeps_waiting(s, id, to, events.drop_last());
        assert(!decides(events[events.len() - 1], id));
    }
}

/// Where no request waits on a connection, none is answered there until another one leaves
/// a handle: no request is answered twice.
pub proof fn law_answered_once<W, S>(
    s: RouterView<W, S>,
    id: u64,
    events: Seq<RouterEventView<W, S>>,
    answer: RpcParam,
)
    requires
        !s.waiting.contains_key(id),
        forall|i: int| 0 <= i < events.len() ==> !leaves_handle(#[trigger] events[i], id),
    ensures
        !router_run(s, events).waiting.contains_key(id),
        !(router_step(router_run(s, events), RouterEventView::Event(id, answer)).1 is Reply),
    decreases events.len(),
{
    if events.len() > 0 {
        law_answered_once(s, id, events.drop_last(), answer);
        assert(!leaves_handle(events[events.len() - 1], id));
    }
}

/// An answer goes only to a handle that a request on the same connection left, with no
/// later such request and no end of the connection in between.
pub proof fn law_answer_was_asked_for<W, S>(
    events: Seq<RouterEventView<W, S>>,
    id: u64,
    answer: RpcParam,
    to: S,
)
    requires
        router_step(
            router_run(router_start::<W, S>(), events),
            RouterEventView::Event(id, answer),
        ).1 matches RouterActionView::Reply(handle, _) && handle == to,
    ensures
        exists|i: int|
            {
                &&& 0 <= i < events.len()
                &&& #[trigger] events[i] matches RouterEventView::Stream(
                    RpcMessageView::Request(n, _, _, Some(handle)),
                ) && n == id && handle == to
                &&& forall|j: int|
                    i < j < events.len() ==> !leaves_handle(#[trigger] events[j], id) && events[j]
                        != RouterEventView::<W, S>::Stream(RpcMessageView::Close(id))
            },
{
    lemma_waiting_was_asked(events, id);
}

proof fn lemma_waiting_was_asked<W, S>(events: Seq<RouterEventView<W, S>>, id: u64)
    requires
        router_run(router_start::<W, S>(), events).waiting.contains_key(id),
    ensures
        exists|i: int|
            {
                &&& 0 <= i < events.len()
                &&& #[trigger] events[i] matches RouterEventView::Stream(
                    RpcMessageView::Request(n, _, _, Some(handle)),
                ) && n == id && handle == router_run(router_start::<W, S>(), events).waiting[id]
                &&& forall|j: int|
                    i < j < events.len() ==> !leaves_handle(#[trigger] events[j], id) && events[j]
                        != RouterEventView::<W, S>::Stream(RpcMessageView::Close(id))
            },
    decreases events.len(),
{
    let before = events.drop_last();
    let last = events.last();
    let n = events.len() - 1;
    if leaves_handle(last, id) {
        assert(events[n] == last);
    } else {
        lemma_waiting_was_asked(before, id);
        let i = choose|i: int|
            {
                &&& 0 <= i < before.len()
                &&& #[trigger] before[i] matches RouterEventView::Stream(
                    RpcMessageView::Request(n, _, _, Some(handle)),
                ) && n == id && handle == router_run(router_start::<W, S>(), before).waiting[id]
                &&& forall|j: int|
                    i < j < before.len() ==> !leaves_handle(#[trigger] before[j], id) && before[j]
                        != RouterEventView::<W, S>::Stream(RpcMessageView::Close(id))
            };
        assert(events[i] == before[i]);
        assert forall|j: int| i < j < events.len() implies !leaves_handle(#[trigger] events[j], id)
            && events[j] != RouterEventView::<W, S>::Stream(RpcMessageView::Close(id)) by {
            if j < n {
                assert(events[j] == before[j]);
            }
        }
    }
}

/// Until an open connection is opened anew or ends, everything that the application sends
/// to it goes out on it.
pub proof fn law_open_connection_is_served<W, S>(
    s: RouterView<W, S>,
    id: u64,
    peer: Seq<u8>,
    data: Seq<char>,
    to: W,
    between: Seq<RouterEventView<W, S>>,
    param: RpcParam,
)
    requires
        forall|i: int| 0 <= i < between.len() ==> !opens_or_ends(#[trigger] between[i], id),
    ensures
        ({
            let opened = router_step(
                s,
                RouterEventView::Stream(RpcMessageView::Open(id, peer, data, to)),
            ).0;
            let before = router_run(opened, between);
            &&& before.open.contains_key(id) && before.open[id] == to
            &&& router_step(before, RouterEventView::Event(id, param)) == (
                before,
                RouterActionView::<W, S>::Push(id, RpcMessageView::Response(param)),
            )
        }),
{
    let opened = router_step(
        s,
        RouterEventView::Stream(RpcMessageView::Open(id, peer, data, to)),
    ).0;
    lemma_stays_open(opened, id, to, between);
}

proof fn lemma_stays_open<W, S>(
    s: RouterView<W, S>,
    id: u64,
    to: W,
    events: Seq<RouterEventView<W, S>>,
)
    requires
        s.open.contains_key(id) && s.open[id] == to,
        forall|i: int| 0 <= i < events.len() ==> !opens_or_ends(#[trigger] events[i], id),
    ensures
        router_run(s, events).open.contains_key(id) && router_run(s, events).open[id] == to,
    decreases events.len(),
{
    if events.len() > 0 {
        lemma_stays_open(s, id, to, events.drop_last());
        assert(!opens_or_ends(events[events.len() - 1], id));
    }
}

/// What the application sends to a connection goes out only on one that was opened under
/// its number, and has neither been opened anew nor ended since.
pub proof fn law_served_connection_was_opened<W, S>(
    events: Seq<RouterEventView<W, S>>,
    id: u64,
    param: RpcParam,
)
    requires
        router_step(
            router_run(router_start::<W, S>(), events),
            RouterEventView::Event(id, param),
        ).1 is Push,
    ensures
        exists|i: int|
            {
                &&& 0 <= i < events.len()
                &&& #[trigger] events[i] matches RouterEventView::Stream(
                    RpcMessageView::Open(n, _, _, to),
                ) && n == id && to == router_run(router_start::<W, S>(), events).open[id]
                &&& forall|j: int|
                    i < j < events.len() ==> !opens_or_ends(#[trigger] events[j], id)
            },
{
    lemma_open_was_opened(events, id);
}

proof fn lemma_open_was_opened<W, S>(events: Seq<RouterEventView<W, S>>, id: u64)
    requires
        router_run(router_start::<W, S>(), events).open.contains_key(id),
    ensures
        exists|i: int|
            {
                &&& 0 <= i < events.len()
                &&& #[trigger] events[i] matches RouterEventView::Stream(
                    RpcMessageView::Open(n, _, _, to),
                ) && n == id && to == router_run(router_start::<W, S>(), events).open[id]
                &&& forall|j: int|
                    i < j < events.len() ==> !opens_or_ends(#[trigger] events[j], id)
            },
    decreases events.len(),
{
    let before = events.drop_last();
    let last = events.last();
    let n = events.len() - 1;
    if opens(last, id) {
        assert(events[n] == last);
    } else {
        lemma_open_was_opened(before, id);
        let i = choose|i: int|
            {
                &&& 0 <= i < before.len()
                &&& #[trigger] before[i] matches RouterEventView::Stream(
                    RpcMessageView::Open(n, _, _, to),
                ) && n == id && to == router_run(router_start::<W, S>(), before).open[id]
                &&& forall|j: int|
                    i < j < before.len() ==> !opens_or_ends(#[trigger] before[j], id)
            };
        assert(events[i] == before[i]);
        assert forall|j: int| i < j < events.len() implies !opens_or_ends(
            #[trigger] events[j],
            id,
        ) by {
            if j < n {
                assert(events[j] == before[j]);
            }
        }
    }
}

/// Nothing goes out to a connection that has ended, until it is opened anew or a request
/// leaves a handle under its number.
pub proof fn law_ended_connection_is_silent<W, S>(
    s: RouterView<W, S>,
    id: u64,
    events: Seq<RouterEventView<W, S>>,
    param: RpcParam,
)
    requires
        forall|i: int|
            0 <= i < events.len() ==> !opens(#[trigger] events[i], id) && !leaves_handle(
                events[i],
                id,
            ),
    ensures
        ({
            let ended = router_step(s, RouterEventView::Stream(RpcMessageView::Close(id))).0;
            let before = router_run(ended, events);
            router_step(before, RouterEventView::Event(id, param)) == (
                before,
                RouterActionView::<W, S>::Idle,
            )
        }),
{
    let ended = router_step(s, RouterEventView::Stream(RpcMessageView::Close(id))).0;
    lemma_stays_unknown(ended, id, events);
}

proof fn lemma_stays_unknown<W, S>(
    s: RouterView<W, S>,
    id: u64,
    events: Seq<RouterEventView<W, S>>,
)
    requires
        !s.open.contains_key(id),
        !s.waiting.contains_key(id),
        forall|i: int|
            0 <= i < events.len() ==> !opens(#[trigger] events[i], id) && !leaves_handle(
                events[i],
                id,
            ),
    ensures
        !router_run(s, events).open.contains_key(id),
        !router_run(s, events).waiting.contains_key(id),
    decreases events.len(),
{
    if events.len() > 0 {
        lemma_stays_unknown(s, id, events.drop_last());
        assert(!opens(events[events.len() - 1], id));
    }
}

/// A connection that the application ends is told so once: asking again does nothing.
pub proof fn law_leave_once<W, S>(s: RouterView<W, S>, id: u64)
    ensures
        ({
            let (left, _) = router_step(s, RouterEventView::Leave(id));
            router_step(left, RouterEventView::Leave(id)) == (
                left,
                RouterActionView::<W, S>::Idle,
            )
        }),
{
}

/// The end of a connection undoes its opening, and an answer undoes the request it is for:
/// the router is left as it was.
pub proof fn law_nothing_is_left_behind<W, S>(
    s: RouterView<W, S>,
    id: u64,
    peer: Seq<u8>,
    data: Seq<char>,
    to: W,
    param: RpcParam,
    handle: S,
    answer: RpcParam,
)
    requires
        knows(s, id) == (None::<W>, None::<S>),
    ensures
        router_run(
            s,
            seq![
                RouterEventView::Stream(RpcMessageView::Open(id, peer, data, to)),
                RouterEventView::Stream(RpcMessageView::Close(id)),
            ],
        ) == s,
        router_run(
            s,
            seq![
                RouterEventView::Stream(RpcMessageView::Request(id, peer, param, Some(handle))),
                RouterEventView::Event(id, answer),
            ],
        ) == s,
{
    reveal_with_fuel(router_run, 3);
    let e1 = seq![
        RouterEventView::<W, S>::Stream(RpcMessageView::Open(id, peer, data, to)),
        RouterEventView::Stream(RpcMessageView::Close(id)),
    ];
    assert(e1.drop_last().drop_last() =~= Seq::empty());
    assert(router_run(s, e1) =~= s);
    let e2 = seq![
        RouterEventView::<W, S>::Stream(RpcMessageView::Request(id, peer, param, Some(handle))),
        RouterEventView::Event(id, answer),
    ];
    assert(e2.drop_last().drop_last() =~= Seq::empty());
    assert(router_run(s, e2) =~= s);
}

// ---- Connections over HTTP ----

/// How far the connection `id` has come after a sequence of events.
pub open spec fn http_run<W, S>(
    id: u64,
    stage: HttpStageView<S>,
    events: Seq<HttpEventView<W, S>>,
) -> HttpStageView<S>
    decreases events.len(),
{
    if events.len() == 0 {
        stage
    } else {
        http_step(id, http_run(id, stage, events.drop_last()), events.last()).0
    }
}

/// The reads that bring these pieces.
pub open spec fn reads<W, S>(pieces: Seq<Seq<u8>>) -> Seq<HttpEventView<W, S>> {
    Seq::new(pieces.len(), |i: int| HttpEventView::Read(pieces[i]))
}

/// Pieces put together.
pub open spec fn joined(pieces: Seq<Seq<u8>>) -> Seq<u8>
    decreases pieces.len(),
{
    if pieces.len() == 0 {
        Seq::empty()
    } else {
        joined(pieces.drop_last()) + pieces.last()
    }
}

proof fn lemma_body_grows<W, S>(
    id: u64,
    sender: S,
    need: usize,
    body: Seq<u8>,
    pieces: Seq<Seq<u8>>,
)
    requires
        body.len() + joined(pieces).len() < need,
    ensures
        http_run(id, HttpStageView::Body(sender, need, body), reads::<W, S>(pieces))
            == HttpStageView::Body(sender, need, body + joined(pieces)),
    decreases pieces.len(),
{
    let events = reads::<W, S>(pieces);
    if pieces.len() == 0 {
        assert(body + joined(pieces) =~= body);
    } else {
        lemma_body_grows::<W, S>(id, sender, need, body, pieces.drop_last());
        assert(events.drop_last() =~= reads::<W, S>(pieces.drop_last()));
        assert(events.last() == HttpEventView::<W, S>::Read(pieces.last()));
        assert(body + joined(pieces.drop_last()) + pieces.last() =~= body + joined(pieces));
    }
}

/// A body that comes in pieces is put together again: once as many bytes are there as the
/// head announced, and not before, all that followed the head is read as the request.
pub proof fn law_body_is_put_together<W, S>(
    id: u64,
    sender: S,
    first: Seq<u8>,
    amt: usize,
    need: usize,
    pieces: Seq<Seq<u8>>,
    last: Seq<u8>,
)
    requires
        request_of(request_head(first, MAX_HEADERS), first.len() as int) == Ok::<
            HttpView,
            Seq<char>,
        >(HttpView::NeedMore(amt, need)),
        amt <= first.len(),
        (first.skip(amt as int) + joined(pieces)).len() < need,
        (first.skip(amt as int) + joined(pieces) + last).len() >= need,
    ensures
        ({
            let events = seq![HttpEventView::<W, S>::Read(first)] + reads(pieces);
            let stage = http_run(id, HttpStageView::Head(sender), events);
            &&& stage == HttpStageView::Body(
                sender,
                need,
                first.skip(amt as int) + joined(pieces),
            )
            &&& http_step(id, stage, HttpEventView::<W, S>::Read(last)) == http_body::<W, S>(
                id,
                sender,
                no_peer(),
                first.skip(amt as int) + joined(pieces) + last,
            )
        }),
{
    let events = seq![HttpEventView::<W, S>::Read(first)] + reads(pieces);
    let head = HttpStageView::Head(sender);
    let body = HttpStageView::Body(sender, need, first.skip(amt as int));
    assert(http_step(id, head, HttpEventView::<W, S>::Read(first)).0 == body);
    lemma_run_from_second(id, head, HttpEventView::<W, S>::Read(first), reads(pieces));
    lemma_body_grows::<W, S>(id, sender, need, first.skip(amt as int), pieces);
}

proof fn lemma_run_from_second<W, S>(
    id: u64,
    stage: HttpStageView<S>,
    first: HttpEventView<W, S>,
    rest: Seq<HttpEventView<W, S>>,
)
    ensures
        http_run(id, stage, seq![first] + rest) == http_run(
            id,
            http_step(id, stage, first).0,
            rest,
        ),
    decreases rest.len(),
{
    let events = seq![first] + rest;
    if rest.len() == 0 {
        reveal_with_fuel(http_run, 2);
        assert(events.drop_last() =~= Seq::empty());
    } else {
        lemma_run_from_second(id, stage, first, rest.drop_last());
        assert(events.drop_last() =~= seq![first] + rest.drop_last());
    }
}

/// Where the rest of a body is cut into pieces makes no difference to what becomes of it.
pub proof fn law_cuts_make_no_difference<W, S>(
    id: u64,
    sender: S,
    need: usize,
    body: Seq<u8>,
    some: Seq<Seq<u8>>,
    some_last: Seq<u8>,
    other: Seq<Seq<u8>>,
    other_last: Seq<u8>,
)
    requires
        joined(some) + some_last == joined(other) + other_last,
        body.len() + joined(some).len() < need,
        body.len() + joined(other).len() < need,
        body.len() + (joined(some) + some_last).len() >= need,
    ensures
        ({
            let start = HttpStageView::Body(sender, need, body);
            http_step(
                id,
                http_run(id, start, reads::<W, S>(some)),
                HttpEventView::<W, S>::Read(some_last),
            ) == http_step(
                id,
                http_run(id, start, reads::<W, S>(other)),
                HttpEventView::<W, S>::Read(other_last),
            )
        }),
{
    lemma_body_grows::<W, S>(id, sender, need, body, some);
    lemma_body_grows::<W, S>(id, sender, need, body, other);
    assert(body + joined(some) + some_last =~= body + (joined(some) + some_last));
    assert(body + joined(other) + other_last =~= body + (joined(other) + other_last));
}

/// Once a connection has written its final answer, was rejected or has stopped, it does
/// nothing more.
pub proof fn law_end_is_final<W, S>(
    id: u64,
    stage: HttpStageView<S>,
    event: HttpEventView<W, S>,
    later: Seq<HttpEventView<W, S>>,
    last: HttpEventView<W, S>,
)
    requires
        ({
            let action = http_step(id, stage, event).1;
            action is Finish || action is Reject || action is Stop
        }),
    ensures
        ({
            let end = http_run(id, http_step(id, stage, event).0, later);
            http_step(id, end, last) == (end, HttpActionView::<W, S>::Stop)
        }),
{
    lemma_done_stays(id, later);
}

proof fn lemma_done_stays<W, S>(id: u64, events: Seq<HttpEventView<W, S>>)
    ensures
        http_run(id, HttpStageView::<S>::Done, events) == HttpStageView::<S>::Done,
    decreases events.len(),
{
    if events.len() > 0 {
        lemma_done_stays(id, events.drop_last());
    }
}

/// A connection passes at most one request on, and never one after a refusal: once it has
/// done either, it reads no request any more.
pub proof fn law_one_request<W, S>(
    id: u64,
    stage: HttpStageView<S>,
    event: HttpEventView<W, S>,
    later: Seq<HttpEventView<W, S>>,
    last: HttpEventView<W, S>,
)
    requires
        ({
            let action = http_step(id, stage, event).1;
            action is Forward || action is Refuse
        }),
    ensures
        ({
            let action = http_step(
                id,
                http_run(id, http_step(id, stage, event).0, later),
                last,
            ).1;
            action is Finish || action is Wait || action is Stop
        }),
{
    lemma_past_request(id, http_step(id, stage, event).0, later);
}

proof fn lemma_past_request<W, S>(
    id: u64,
    stage: HttpStageView<S>,
    events: Seq<HttpEventView<W, S>>,
)
    requires
        stage is Answer || stage is Done,
    ensures
        http_run(id, stage, events) is Answer || http_run(id, stage, events) is Done,
    decreases events.len(),
{
    if events.len() > 0 {
        lemma_past_request(id, stage, events.drop_last());
    }
}

// ---- Requests and answers, from end to end ----

/// A named peer acts as soon as one of its bytes is not zero.
proof fn lemma_acting_peer(named: PeerId, carried: Seq<u8>)
    ensures
        (exists|i: int| 0 <= i < 20 && #[trigger] named.0@[i] != 0) ==> acting_peer(
            named@,
            carried,
        ) == named.0@,
        (forall|i: int| 0 <= i < 20 ==> #[trigger] named.0@[i] == 0) ==> acting_peer(
            named@,
            carried,
        ) == carried,
{
    if forall|i: int| 0 <= i < 20 ==> #[trigger] named.0@[i] == 0 {
        assert(named@ =~= no_peer());
    }
}

/// A request over HTTP: the application hears of it under the connection's number, and under
/// the peer that the request names by one byte that is not zero, or else the connection's.
/// What it answers is what the connection writes, whatever else the router handles in between.
pub proof fn law_http_round_trip<W, S>(
    s: RouterView<W, S>,
    id: u64,
    sender: S,
    carried: Seq<u8>,
    body: Seq<u8>,
    named: PeerId,
    param: RpcParam,
    between: Seq<RouterEventView<W, S>>,
    answer: RpcParam,
)
    requires
        jsonrpc_parsed(text_of(body)) matches Ok((p, v)) && p == named && v == param,
        !s.open.contains_key(id),
        forall|i: int| 0 <= i < between.len() ==> !decides(#[trigger] between[i], id),
    ensures
        ({
            let peer = if exists|i: int| 0 <= i < 20 && #[trigger] named.0@[i] != 0 {
                named.0@
            } else {
                carried
            };
            let request = RpcMessageView::<W, S>::Request(id, peer, param, Some(sender));
            let (waiting, sent) = http_body::<W, S>(id, sender, carried, body);
            let (asked, news) = router_step(s, RouterEventView::Stream(request));
            let before = router_run(asked, between);
            let (_, reply) = router_step(before, RouterEventView::Event(id, answer));
            let response = RpcMessageView::<W, S>::Response(answer);
            &&& sent == HttpActionView::<W, S>::Forward(request)
            &&& news == RouterActionView::<W, S>::Notify(RpcRecvView::Event(id, peer, param))
            &&& reply == RouterActionView::<W, S>::Reply(sender, response)
            &&& http_step(id, waiting, HttpEventView::Answered(response)) == (
                HttpStageView::<S>::Done,
                HttpActionView::<W, S>::Finish(RESPONSE_HEAD@ + json_text(answer)),
            )
        }),
{
    let peer = acting_peer(named@, carried);
    lemma_acting_peer(named, carried);
    law_answer_finds_request(s, id, peer, param, sender, between, answer);
}

/// A request over WebSocket: the application hears of it under the connection's number, and
/// under the peer that the request names by one byte that is not zero, or else the one that
/// opened the connection. What it answers goes to the same connection, which writes it, as
/// long as the connection is not opened anew and does not end.
pub proof fn law_ws_round_trip<W, S>(
    s: RouterView<W, S>,
    id: u64,
    carried: Seq<u8>,
    data: Seq<char>,
    to: W,
    opened: Seq<RouterEventView<W, S>>,
    text: Seq<char>,
    named: PeerId,
    param: RpcParam,
    asked: Seq<RouterEventView<W, S>>,
    answer: RpcParam,
)
    requires
        text != "ping"@,
        jsonrpc_parsed(text) matches Ok((p, v)) && p == named && v == param,
        forall|i: int| 0 <= i < opened.len() ==> !opens_or_ends(#[trigger] opened[i], id),
        forall|i: int| 0 <= i < asked.len() ==> !opens_or_ends(#[trigger] asked[i], id),
    ensures
        ({
            let peer = if exists|i: int| 0 <= i < 20 && #[trigger] named.0@[i] != 0 {
                named.0@
            } else {
                carried
            };
            let request = RpcMessageView::<W, S>::Request(id, peer, param, None);
            let open = RpcMessageView::<W, S>::Open(id, carried, data, to);
            let s1 = router_run(router_step(s, RouterEventView::Stream(open)).0, opened);
            let (s2, news) = router_step(s1, RouterEventView::Stream(request));
            let s3 = router_run(s2, asked);
            let response = RpcMessageView::<W, S>::Response(answer);
            &&& ws_step::<W, S>(id, carried, WsEventView::Stream(text)) == WsActionView::<
                W,
                S,
            >::Forward(request)
            &&& news == RouterActionView::<W, S>::Notify(RpcRecvView::Event(id, peer, param))
            &&& router_step(s3, RouterEventView::Event(id, answer)).1 == RouterActionView::<
                W,
                S,
            >::Push(id, response)
            &&& s3.open[id] == to
            &&& ws_step(id, carried, WsEventView::Out(response)) == WsActionView::<W, S>::Write(
                json_text(answer),
            )
        }),
{
    let open = RpcMessageView::<W, S>::Open(id, carried, data, to);
    let s1 = router_run(router_step(s, RouterEventView::Stream(open)).0, opened);
    let peer = acting_peer(named@, carried);
    lemma_acting_peer(named, carried);
    law_open_connection_is_served(s, id, carried, data, to, opened, answer);
    let s2 = router_step(
        s1,
        RouterEventView::Stream(
            RpcMessageView::<W, S>::Request(id, peer, param, None),
        ),
    ).0;
    lemma_stays_open(s2, id, to, asked);
}

/// When a connection over WebSocket ends, the application is told, and nothing is sent to
/// the connection from then on.
pub proof fn law_ws_end<W, S>(s: RouterView<W, S>, id: u64, carried: Seq<u8>, param: RpcParam)
    ensures
        ({
            let close = RpcMessageView::<W, S>::Close(id);
            let (ended, news) = router_step(s, RouterEventView::Stream(close));
            &&& ws_step::<W, S>(id, carried, WsEventView::Closed) == WsActionView::<W, S>::Leave(
                close,
            )
            &&& news == RouterActionView::<W, S>::Notify(RpcRecvView::Leave(id))
            &&& router_step(ended, RouterEventView::Event(id, param)) == (
                ended,
                RouterActionView::<W, S>::Idle,
            )
        }),
{
}

/// The same text fares alike over HTTP and over WebSocket, unless it is `ping`: it is passed
/// on as the same request, but for the handle, or refused with the same JSON text.
pub proof fn law_both_ways_alike<W, S>(id: u64, sender: S, carried: Seq<u8>, body: Seq<u8>)
    requires
        text_of(body) != "ping"@,
    ensures
        match ws_step::<W, S>(id, carried, WsEventView::Stream(text_of(body))) {
            WsActionView::Forward(RpcMessageView::Request(n, peer, param, handle)) => handle
                is None && http_body::<W, S>(id, sender, carried, body).1 == HttpActionView::<
                W,
                S,
            >::Forward(RpcMessageView::Request(n, peer, param, Some(sender))),
            WsActionView::Write(text) => http_body::<W, S>(id, sender, carried, body).1
                == HttpActionView::<W, S>::Refuse(RESPONSE_HEAD@ + text),
            _ => false,
        },
{
}

} // verus!
