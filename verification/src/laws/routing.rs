//! What holds of the router: what each event makes it do and know.

use vstd::prelude::*;

use crate::jsonrpc::RpcParam;
use crate::message::{RpcMessage, RpcMessageView, RpcRecvType, RpcRecvView, RpcSendType};
use crate::peer::PeerId;
use crate::router::{Router, RouterAction, RouterActionView, RouterEvent, RouterEventView, RouterView};
#[allow(unused_imports)]
use crate::laws::router_run;
#[allow(unused_imports)]
use crate::router::router_step;

verus! {

/// A new router knows of no connection and of no request.
pub proof fn law_new_router_knows_nothing<W, S>(hub: Router<W, S>, id: u64)
    requires
        call_ensures(Router::<W, S>::new, (), hub),
    ensures
        !hub@.open.contains_key(id),
        !hub@.waiting.contains_key(id),
{
}

/// A connection has a handle if and only if it is open, and the one it was opened with.
pub proof fn law_handle_of_connection<W, S>(hub: Router<W, S>, id: u64, r: Option<&W>)
    requires
        call_ensures(Router::<W, S>::handle, (&hub, id), r),
    ensures
        r is Some <==> hub@.open.contains_key(id),
        r matches Some(to) ==> *to == hub@.open[id],
{
}

/// Every opening is told to the application, once, with the number, the peer and the words
/// that it came with, whoever the peer is and whatever the router knows; the connection is
/// then open, and nothing else changes.
pub proof fn law_opening_is_heard_of<W, S>(
    hub: &mut Router<W, S>,
    id: u64,
    peer: PeerId,
    data: String,
    to: W,
    r: RouterAction<W, S>,
)
    requires
        call_ensures(
            Router::<W, S>::step,
            (hub, RouterEvent::Stream(RpcMessage::Open(id, peer, data, to))),
            r,
        ),
    ensures
        r matches RouterAction::Notify(RpcRecvType::Connect(n, p, d)) && n == id && p.0@ == peer.0@
            && d@ == data@,
        final(hub)@.open == old(hub)@.open.insert(id, to),
        final(hub)@.waiting == old(hub)@.waiting,
{
}

/// Every request is told to the application, once, with the number, the peer and the content
/// that it came with. It waits from then on if it left a handle; nothing else changes.
pub proof fn law_request_is_heard_of<W, S>(
    hub: &mut Router<W, S>,
    id: u64,
    peer: PeerId,
    param: RpcParam,
    handle: Option<S>,
    r: RouterAction<W, S>,
)
    requires
        call_ensures(
            Router::<W, S>::step,
            (hub, RouterEvent::Stream(RpcMessage::Request(id, peer, param, handle))),
            r,
        ),
    ensures
        r matches RouterAction::Notify(RpcRecvType::Event(n, p, content)) && n == id && p.0@
            == peer.0@ && content == param,
        final(hub)@.open == old(hub)@.open,
        handle matches Some(to) ==> final(hub)@.waiting == old(hub)@.waiting.insert(id, to),
        handle is None ==> final(hub)@.waiting == old(hub)@.waiting,
{
}

/// Every end is told to the application, once, under its number; the connection is then
/// neither open nor does a request wait on it, and nothing else changes.
pub proof fn law_end_is_heard_of<W, S>(hub: &mut Router<W, S>, id: u64, r: RouterAction<W, S>)
    requires
        call_ensures(
            Router::<W, S>::step,
            (hub, RouterEvent::Stream(RpcMessage::Close(id))),
            r,
        ),
    ensures
        r matches RouterAction::Notify(RpcRecvType::Leave(n)) && n == id,
        final(hub)@.open == old(hub)@.open.remove(id),
        final(hub)@.waiting == old(hub)@.waiting.remove(id),
{
}

/// What the application sends to an open connection is pushed to it, even while a request
/// waits under the same number, and nothing changes.
pub proof fn law_open_connection_goes_first<W, S>(
    hub: &mut Router<W, S>,
    id: u64,
    param: RpcParam,
    r: RouterAction<W, S>,
)
    requires
        call_ensures(Router::<W, S>::step, (hub, RouterEvent::Out(RpcSendType::Event(id, param))), r),
        old(hub)@.open.contains_key(id),
    ensures
        r matches RouterAction::Push(n, RpcMessage::Response(value)) && n == id && value == param,
        final(hub)@.open == old(hub)@.open,
        final(hub)@.waiting == old(hub)@.waiting,
{
}

/// What the application sends under the number of a request that waits goes to that request's
/// handle, and the request waits no more; under any other number it goes nowhere.
pub proof fn law_answer_goes_to_the_handle<W, S>(
    hub: &mut Router<W, S>,
    id: u64,
    param: RpcParam,
    r: RouterAction<W, S>,
)
    requires
        call_ensures(Router::<W, S>::step, (hub, RouterEvent::Out(RpcSendType::Event(id, param))), r),
        !old(hub)@.open.contains_key(id),
    ensures
        old(hub)@.waiting.contains_key(id) ==> (r matches RouterAction::Reply(
            to,
            RpcMessage::Response(value),
        ) && to == old(hub)@.waiting[id] && value == param),
        !old(hub)@.waiting.contains_key(id) ==> r is Idle,
        final(hub)@.open == old(hub)@.open,
        final(hub)@.waiting == old(hub)@.waiting.remove(id),
{
    if !old(hub)@.waiting.contains_key(id) {
        assert(old(hub)@.waiting.remove(id) =~= old(hub)@.waiting);
    }
}

/// A connection that the application leaves is told its end over its handle, and is then open
/// no more; leaving another does nothing. Requests wait on.
pub proof fn law_leaving_is_told<W, S>(hub: &mut Router<W, S>, id: u64, r: RouterAction<W, S>)
    requires
        call_ensures(Router::<W, S>::step, (hub, RouterEvent::Out(RpcSendType::Leave(id))), r),
    ensures
        old(hub)@.open.contains_key(id) ==> (r matches RouterAction::Farewell(
            to,
            RpcMessage::Close(n),
        ) && to == old(hub)@.open[id] && n == id),
        !old(hub)@.open.contains_key(id) ==> r is Idle,
        final(hub)@.open == old(hub)@.open.remove(id),
        final(hub)@.waiting == old(hub)@.waiting,
{
    if !old(hub)@.open.contains_key(id) {
        assert(old(hub)@.open.remove(id) =~= old(hub)@.open);
    }
}

/// The router neither connects to servers nor takes answers from connections.
pub proof fn law_nothing_to_route<W, S>(
    hub: &mut Router<W, S>,
    event: RouterEvent<W, S>,
    r: RouterAction<W, S>,
)
    requires
        call_ensures(Router::<W, S>::step, (hub, event), r),
        (event matches RouterEvent::Out(what) && what is Connect) || (
        event matches RouterEvent::Stream(message) && message is Response),
    ensures
        r is Idle,
        final(hub)@.open == old(hub)@.open,
        final(hub)@.waiting == old(hub)@.waiting,
{
}

/// The router stops when one of its sides is gone, and only then.
pub proof fn law_router_stops<W, S>(
    hub: &mut Router<W, S>,
    event: RouterEvent<W, S>,
    r: RouterAction<W, S>,
)
    requires
        call_ensures(Router::<W, S>::step, (hub, event), r),
    ensures
        r is Stop <==> event is Closed,
        event is Closed ==> final(hub)@.open == old(hub)@.open && final(hub)@.waiting == old(
            hub,
        )@.waiting,
{
}

// ---- Whole runs ----

/// What a router does over a sequence of events, action by action.
pub open spec fn router_does<W, S>(
    s: RouterView<W, S>,
    events: Seq<RouterEventView<W, S>>,
) -> Seq<RouterActionView<W, S>> {
    Seq::new(events.len(), |i: int| router_step(router_run(s, events.take(i)), events[i]).1)
}

/// The openings among events: numbers, peers and words, in their order.
pub open spec fn openings<W, S>(events: Seq<RouterEventView<W, S>>) -> Seq<
    (u64, Seq<u8>, Seq<char>),
>
    decreases events.len(),
{
    if events.len() == 0 {
        Seq::empty()
    } else {
        match events.last() {
            RouterEventView::Stream(RpcMessageView::Open(id, peer, data, _)) => openings(
                events.drop_last(),
            ).push((id, peer, data)),
            _ => openings(events.drop_last()),
        }
    }
}

/// The openings that actions tell the application of, in their order.
pub open spec fn openings_told<W, S>(actions: Seq<RouterActionView<W, S>>) -> Seq<
    (u64, Seq<u8>, Seq<char>),
>
    decreases actions.len(),
{
    if actions.len() == 0 {
        Seq::empty()
    } else {
        match actions.last() {
            RouterActionView::Notify(RpcRecvView::Connect(id, peer, data)) => openings_told(
                actions.drop_last(),
            ).push((id, peer, data)),
            _ => openings_told(actions.drop_last()),
        }
    }
}

/// Over any run the application is told of each opening exactly once, with the same number,
/// peer and words, in the order of the openings, and of no other.
pub proof fn law_each_opening_is_told_once<W, S>(
    s: RouterView<W, S>,
    events: Seq<RouterEventView<W, S>>,
)
    ensures
        openings_told(router_does(s, events)) == openings(events),
    decreases events.len(),
{
    if events.len() > 0 {
        let rest = events.drop_last();
        let n = events.len() - 1;
        law_each_opening_is_told_once(s, rest);
        assert(events.take(n) =~= rest);
        assert(router_does(s, events).drop_last() =~= router_does(s, rest)) by {
            assert forall|i: int| 0 <= i < n implies router_does(s, events)[i] == router_does(
                s,
                rest,
            )[i] by {
                assert(events.take(i) =~= rest.take(i));
            }
        }
        assert(router_does(s, events).last() == router_step(router_run(s, rest), events[n]).1);
    }
}

/// The requests among events: numbers, peers and contents, in their order.
pub open spec fn requests<W, S>(events: Seq<RouterEventView<W, S>>) -> Seq<
    (u64, Seq<u8>, RpcParam),
>
    decreases events.len(),
{
    if events.len() == 0 {
        Seq::empty()
    } else {
        match events.last() {
            RouterEventView::Stream(RpcMessageView::Request(id, peer, param, _)) => requests(
                events.drop_last(),
            ).push((id, peer, param)),
            _ => requests(events.drop_last()),
        }
    }
}

/// The requests that actions tell the application of, in their order.
pub open spec fn requests_told<W, S>(actions: Seq<RouterActionView<W, S>>) -> Seq<
    (u64, Seq<u8>, RpcParam),
>
    decreases actions.len(),
{
    if actions.len() == 0 {
        Seq::empty()
    } else {
        match actions.last() {
            RouterActionView::Notify(RpcRecvView::Event(id, peer, param)) => requests_told(
                actions.drop_last(),
            ).push((id, peer, param)),
            _ => requests_told(actions.drop_last()),
        }
    }
}

/// Over any run the application is told of each request exactly once, with the same number,
/// peer and content, in the order of the requests, and of no other.
pub proof fn law_each_request_is_told_once<W, S>(
    s: RouterView<W, S>,
    events: Seq<RouterEventView<W, S>>,
)
    ensures
        requests_told(router_does(s, events)) == requests(events),
    decreases events.len(),
{
    if events.len() > 0 {
        let rest = events.drop_last();
        let n = events.len() - 1;
        law_each_request_is_told_once(s, rest);
        assert(events.take(n) =~= rest);
        assert(router_does(s, events).drop_last() =~= router_does(s, rest)) by {
            assert forall|i: int| 0 <= i < n implies router_does(s, events)[i] == router_does(
                s,
                rest,
            )[i] by {
                assert(events.take(i) =~= rest.take(i));
            }
        }
        assert(router_does(s, events).last() == router_step(router_run(s, rest), events[n]).1);
    }
}

} // verus!
