//! Starting the listeners that a configuration asks for.

use vstd::prelude::*;

verus! {

/// What to listen on. `A` is a network address, `C` the two ends of a channel within the
/// process, `P` the path of the index page.
#[derive(Clone, Debug)]
pub struct RpcConfig<A, C, P> {
    pub http: Option<A>,
    pub ws: Option<A>,
    pub channel: Option<C>,
    pub index: Option<P>,
}

/// Where the start stands.
#[derive(Debug)]
pub enum Startup<A, C, P> {
    /// This is still to be started.
    Pending(RpcConfig<A, C, P>),
    /// Nothing is left to do.
    Done,
}

/// What to do next.
#[derive(Debug)]
pub enum StartupAction<A, C, P> {
    /// Bind this address and serve HTTP on it, with this index page.
    Http(A, Option<P>),
    /// Bind this address and serve WebSocket on it.
    Ws(A),
    /// Serve this channel.
    Channel(C),
    /// All runs.
    Ready,
    /// Give up, for this reason.
    Fail(&'static str),
}

/// The first listener that is still to be started, and what is left after it: HTTP first,
/// then WebSocket, then the channel.
pub open spec fn next_listener<A, C, P>(config: RpcConfig<A, C, P>) -> (
    Startup<A, C, P>,
    StartupAction<A, C, P>,
) {
    match (config.http, config.ws, config.channel) {
        (Some(addr), _, _) => (
            Startup::Pending(RpcConfig { http: None, index: None, ..config }),
            StartupAction::Http(addr, config.index),
        ),
        (None, Some(addr), _) => (
            Startup::Pending(RpcConfig { ws: None, ..config }),
            StartupAction::Ws(addr),
        ),
        (None, None, Some(ends)) => (
            Startup::Pending(RpcConfig { channel: None, ..config }),
            StartupAction::Channel(ends),
        ),
        (None, None, None) => (Startup::Done, StartupAction::Ready),
    }
}

/// Whether `action` gives up because an address could not be bound.
pub open spec fn gives_up<A, C, P>(action: StartupAction<A, C, P>) -> bool {
    action matches StartupAction::Fail(reason) && reason@ == "TCP Listen"@
}

impl<A, C, P> Startup<A, C, P> {
    /// What the start of a server needs.
    pub fn new(config: RpcConfig<A, C, P>) -> (r: Startup<A, C, P>)
        ensures
            r == Startup::Pending(config),
    {
        Startup::Pending(config)
    }

    /// Takes one step. `bound` says whether the address of the step before, if it had one,
    /// could be bound; if it could not, no further listener is started.
    pub fn step(self, bound: bool) -> (r: (Startup<A, C, P>, StartupAction<A, C, P>))
        ensures
            !bound ==> r.0 is Done && gives_up(r.1),
            bound ==> match self {
                Startup::Pending(config) => r == next_listener(config),
                Startup::Done => r.0 is Done && r.1 is Ready,
            },
    {
        if !bound {
            return (Startup::Done, StartupAction::Fail("TCP Listen"));
        }
        let config = match self {
            Startup::Pending(config) => config,
            Startup::Done => {
                return (Startup::Done, StartupAction::Ready);
            },
        };
        let RpcConfig { http, ws, channel, index } = config;
        match (http, ws, channel) {
            (Some(addr), ws, channel) => (
                Startup::Pending(RpcConfig { http: None, ws, channel, index: None }),
                StartupAction::Http(addr, index),
            ),
            (None, Some(addr), channel) => (
                Startup::Pending(RpcConfig { http: None, ws: None, channel, index }),
                StartupAction::Ws(addr),
            ),
            (None, None, Some(ends)) => (
                Startup::Pending(RpcConfig { http: None, ws: None, channel: None, index }),
                StartupAction::Channel(ends),
            ),
            (None, None, None) => (Startup::Done, StartupAction::Ready),
        }
    }
}

/// How many steps a start still takes.
pub open spec fn steps_left<A, C, P>(state: Startup<A, C, P>) -> nat {
    match state {
        Startup::Pending(config) => {
            let http: nat = if config.http is Some { 1 } else { 0 };
            let ws: nat = if config.ws is Some { 1 } else { 0 };
            let channel: nat = if config.channel is Some { 1 } else { 0 };
            1 + http + ws + channel
        },
        Startup::Done => 0,
    }
}

/// What a start does from `state` on, if every address can be bound.
pub open spec fn startup_run<A, C, P>(state: Startup<A, C, P>) -> Seq<StartupAction<A, C, P>>
    decreases steps_left(state),
{
    match state {
        Startup::Pending(config) => {
            let (next, action) = next_listener(config);
            seq![action] + startup_run(next)
        },
        Startup::Done => Seq::empty(),
    }
}

/// One action for a listener that is asked for, none for another.
pub open spec fn asked<T>(wanted: bool, action: T) -> Seq<T> {
    if wanted {
        seq![action]
    } else {
        Seq::empty()
    }
}

/// A start whose addresses can all be bound starts exactly the listeners that the
/// configuration asks for, each once, HTTP before WebSocket before the channel, hands the
/// index page to HTTP, and then is ready.
pub proof fn law_startup_order<A, C, P>(config: RpcConfig<A, C, P>)
    ensures
        startup_run(Startup::Pending(config)) == asked(
            config.http is Some,
            StartupAction::<A, C, P>::Http(config.http->0, config.index),
        ) + asked(config.ws is Some, StartupAction::<A, C, P>::Ws(config.ws->0)) + asked(
            config.channel is Some,
            StartupAction::<A, C, P>::Channel(config.channel->0),
        ) + seq![StartupAction::<A, C, P>::Ready],
{
    reveal_with_fuel(startup_run, 5);
}

} // verus!
