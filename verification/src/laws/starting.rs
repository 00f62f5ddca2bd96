//! What holds of the start of a server: which listener comes when, and when it gives up.

use vstd::prelude::*;

use crate::server::{RpcConfig, Startup, StartupAction};

verus! {

/// A start has all that the configuration asks for before it.
pub proof fn law_start_is_whole<A, C, P>(config: RpcConfig<A, C, P>, r: Startup<A, C, P>)
    requires
        call_ensures(Startup::<A, C, P>::new, (config,), r),
    ensures
        r matches Startup::Pending(left) && left == config,
{
}

/// HTTP comes first wherever it is asked for, with the index page; the other listeners are
/// left to be started.
pub proof fn law_http_first<A, C, P>(
    config: RpcConfig<A, C, P>,
    r: (Startup<A, C, P>, StartupAction<A, C, P>),
)
    requires
        call_ensures(Startup::<A, C, P>::step, (Startup::Pending(config), true), r),
        config.http is Some,
    ensures
        r.1 matches StartupAction::Http(addr, index) && Some(addr) == config.http && index
            == config.index,
        r.0 matches Startup::Pending(left) && left.http is None && left.ws == config.ws
            && left.channel == config.channel && left.index is None,
{
}

/// WebSocket comes next wherever it is asked for.
pub proof fn law_ws_second<A, C, P>(
    config: RpcConfig<A, C, P>,
    r: (Startup<A, C, P>, StartupAction<A, C, P>),
)
    requires
        call_ensures(Startup::<A, C, P>::step, (Startup::Pending(config), true), r),
        config.http is None,
        config.ws is Some,
    ensures
        r.1 matches StartupAction::Ws(addr) && Some(addr) == config.ws,
        r.0 matches Startup::Pending(left) && left.http is None && left.ws is None && left.channel
            == config.channel && left.index == config.index,
{
}

/// The channel comes last wherever it is asked for.
pub proof fn law_channel_last<A, C, P>(
    config: RpcConfig<A, C, P>,
    r: (Startup<A, C, P>, StartupAction<A, C, P>),
)
    requires
        call_ensures(Startup::<A, C, P>::step, (Startup::Pending(config), true), r),
        config.http is None,
        config.ws is None,
        config.channel is Some,
    ensures
        r.1 matches StartupAction::Channel(ends) && Some(ends) == config.channel,
        r.0 matches Startup::Pending(left) && left.http is None && left.ws is None && left.channel
            is None && left.index == config.index,
{
}

/// A start is ready once nothing is left to be started, and not before; it stays so.
pub proof fn law_ready_at_last<A, C, P>(
    state: Startup<A, C, P>,
    r: (Startup<A, C, P>, StartupAction<A, C, P>),
)
    requires
        call_ensures(Startup::<A, C, P>::step, (state, true), r),
    ensures
        r.1 is Ready <==> (state matches Startup::Pending(config) ==> config.http is None
            && config.ws is None && config.channel is None),
        r.1 is Ready <==> r.0 is Done,
{
}

/// A start whose last address could not be bound gives up, whatever is left.
pub proof fn law_start_gives_up<A, C, P>(
    state: Startup<A, C, P>,
    r: (Startup<A, C, P>, StartupAction<A, C, P>),
)
    requires
        call_ensures(Startup::<A, C, P>::step, (state, false), r),
    ensures
        r.0 is Done,
        r.1 matches StartupAction::Fail(reason) && reason@ == "TCP Listen"@,
{
}

} // verus!
