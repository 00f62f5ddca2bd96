//! The router between the connections and the application: it knows which connections
//! are open and which requests still wait for their single answer.

use std::collections::HashMap;

use vstd::prelude::*;

use crate::jsonrpc::RpcParam;
use crate::message::{RpcMessage, RpcMessageView, RpcRecvType, RpcRecvView, RpcSendType};

verus! {

broadcast use vstd::std_specs::hash::group_hash_axioms;

/// The router. `W` is a handle to which the messages for an open connection go, `S` one
/// that takes the single answer to a request.
#[derive(Debug)]
pub struct Router<W, S> {
    open: HashMap<u64, W>,
    waiting: HashMap<u64, S>,
}

/// What a router knows: the open connections, and the requests that wait for an answer.
#[verifier::ext_equal]
pub struct RouterView<W, S> {
    pub open: Map<u64, W>,
    pub waiting: Map<u64, S>,
}

impl<W, S> View for Router<W, S> {
    type V = RouterView<W, S>;

    closed spec fn view(&self) -> RouterView<W, S> {
        RouterView { open: self.open@, waiting: self.waiting@ }
    }
}

/// What reaches the router.
#[derive(Debug)]
pub enum RouterEvent<W, S> {
    /// From the application.
    Out(RpcSendType),
    /// From a connection.
    Stream(RpcMessage<W, S>),
    /// One of the two sides is gone.
    Closed,
}

/// [`RouterEvent`] as mathematical values.
pub enum RouterEventView<W, S> {
    Connect,
    Leave(u64),
    Event(u64, RpcParam),
    Stream(RpcMessageView<W, S>),
    Closed,
}

impl<W, S> View for RouterEvent<W, S> {
    type V = RouterEventView<W, S>;

    open spec fn view(&self) -> RouterEventView<W, S> {
        match *self {
            RouterEvent::Out(RpcSendType::Connect(_, _, _, _)) => RouterEventView::Connect,
            RouterEvent::Out(RpcSendType::Leave(id)) => RouterEventView::Leave(id),
            RouterEvent::Out(RpcSendType::Event(id, param)) => RouterEventView::Event(id, param),
            RouterEvent::Stream(message) => RouterEventView::Stream(message@),
            RouterEvent::Closed => RouterEventView::Closed,
        }
    }
}

/// What the router does.
#[derive(Debug)]
pub enum RouterAction<W, S> {
    /// Nothing.
    Idle,
    /// Tell the application.
    Notify(RpcRecvType),
    /// Send a message to the open connection of this number.
    Push(u64, RpcMessage<W, S>),
    /// Send a last message to a connection that is open no more.
    Farewell(W, RpcMessage<W, S>),
    /// Answer a request that waits no more.
    Reply(S, RpcMessage<W, S>),
    /// Stop.
    Stop,
}

/// [`RouterAction`] as mathematical values.
pub enum RouterActionView<W, S> {
    Idle,
    Notify(RpcRecvView),
    Push(u64, RpcMessageView<W, S>),
    Farewell(W, RpcMessageView<W, S>),
    Reply(S, RpcMessageView<W, S>),
    Stop,
}

impl<W, S> View for RouterAction<W, S> {
    type V = RouterActionView<W, S>;

    open spec fn view(&self) -> RouterActionView<W, S> {
        match *self {
            RouterAction::Idle => RouterActionView::Idle,
            RouterAction::Notify(news) => RouterActionView::Notify(news@),
            RouterAction::Push(id, message) => RouterActionView::Push(id, message@),
            RouterAction::Farewell(to, message) => RouterActionView::Farewell(to, message@),
            RouterAction::Reply(to, message) => RouterActionView::Reply(to, message@),
            RouterAction::Stop => RouterActionView::Stop,
        }
    }
}

/// A router that knows nothing yet.
pub open spec fn router_start<W, S>() -> RouterView<W, S> {
    RouterView { open: Map::empty(), waiting: Map::empty() }
}

/// One step of the router: what it knows afterwards, and what it does.
pub open spec fn router_step<W, S>(s: RouterView<W, S>, event: RouterEventView<W, S>) -> (
    RouterView<W, S>,
    RouterActionView<W, S>,
) {
    match event {
        RouterEventView::Connect => (s, RouterActionView::Idle),
        RouterEventView::Leave(id) => if s.open.contains_key(id) {
            (
                RouterView { open: s.open.remove(id), ..s },
                RouterActionView::Farewell(s.open[id], RpcMessageView::Close(id)),
            )
        } else {
            (s, RouterActionView::Idle)
        },
        RouterEventView::Event(id, param) => if s.open.contains_key(id) {
            (s, RouterActionView::Push(id, RpcMessageView::Response(param)))
        } else if s.waiting.contains_key(id) {
            (
                RouterView { waiting: s.waiting.remove(id), ..s },
                RouterActionView::Reply(s.waiting[id], RpcMessageView::Response(param)),
            )
        } else {
            (s, RouterActionView::Idle)
        },
        RouterEventView::Stream(RpcMessageView::Request(id, peer, param, sender)) => (
            match sender {
                Some(to) => RouterView { waiting: s.waiting.insert(id, to), ..s },
                None => s,
            },
            RouterActionView::Notify(RpcRecvView::Event(id, peer, param)),
        ),
        RouterEventView::Stream(RpcMessageView::Open(id, peer, data, to)) => (
            RouterView { open: s.open.insert(id, to), ..s },
            RouterActionView::Notify(RpcRecvView::Connect(id, peer, data)),
        ),
        RouterEventView::Stream(RpcMessageView::Close(id)) => (
            RouterView { open: s.open.remove(id), waiting: s.waiting.remove(id) },
            RouterActionView::Notify(RpcRecvView::Leave(id)),
        ),
        RouterEventView::Stream(RpcMessageView::Response(_)) => (s, RouterActionView::Idle),
        RouterEventView::Closed => (s, RouterActionView::Stop),
    }
}

impl<W, S> Router<W, S> {
    /// A router that knows nothing yet.
    pub fn new() -> (r: Router<W, S>)
        ensures
            r@ == router_start::<W, S>(),
    {
        Router { open: HashMap::new(), waiting: HashMap::new() }
    }

    /// The handle of an open connection.
    pub fn handle(&self, id: u64) -> (r: Option<&W>)
        ensures
            match r {
                Some(to) => self@.open.contains_key(id) && *to == self@.open[id],
                None => !self@.open.contains_key(id),
            },
    {
        self.open.get(&id)
    }

    /// Takes one step: what reached the router, and what to do.
    pub fn step(&mut self, event: RouterEvent<W, S>) -> (r: RouterAction<W, S>)
        ensures
            (final(self)@, r@) == router_step(old(self)@, event@),
    {
        match event {
            RouterEvent::Out(RpcSendType::Connect(_, _, _, _)) => RouterAction::Idle,
            RouterEvent::Out(RpcSendType::Leave(id)) => match self.open.remove(&id) {
                Some(to) => RouterAction::Farewell(to, RpcMessage::Close(id)),
                None => RouterAction::Idle,
            },
            RouterEvent::Out(RpcSendType::Event(id, param)) => if self.open.contains_key(&id) {
                RouterAction::Push(id, RpcMessage::Response(param))
            } else {
                match self.waiting.remove(&id) {
                    Some(to) => RouterAction::Reply(to, RpcMessage::Response(param)),
                    None => RouterAction::Idle,
                }
            },
            RouterEvent::Stream(RpcMessage::Request(id, peer, param, sender)) => {
                if let Some(to) = sender {
                    self.waiting.insert(id, to);
                }
                RouterAction::Notify(RpcRecvType::Event(id, peer, param))
            },
            RouterEvent::Stream(RpcMessage::Open(id, peer, data, to)) => {
                self.open.insert(id, to);
                RouterAction::Notify(RpcRecvType::Connect(id, peer, data))
            },
            RouterEvent::Stream(RpcMessage::Close(id)) => {
                self.open.remove(&id);
                self.waiting.remove(&id);
                RouterAction::Notify(RpcRecvType::Leave(id))
            },
            RouterEvent::Stream(RpcMessage::Response(_)) => RouterAction::Idle,
            RouterEvent::Closed => RouterAction::Stop,
        }
    }
}

} // verus!
