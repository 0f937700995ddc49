use vstd::prelude::*;
use crate::settings::{LaunchSettings, SocketAddress};

verus! {

/// The three kinds of listener a launch may start.
#[derive(Clone, Copy, Debug, PartialEq, Eq)]
pub enum ListenerKind {
    Http,
    Grpc,
    Metrics,
}

/// One listener to start: its kind and the address it binds.
#[derive(Clone, Copy, Debug, PartialEq, Eq)]
pub struct ListenerPlan {
    pub kind: ListenerKind,
    pub addr: SocketAddress,
}

/// Whether the settings enable the listener of kind `k`.
pub open spec fn listener_enabled(s: LaunchSettings, k: ListenerKind) -> bool {
    match k {
        ListenerKind::Http => s.server.http.enabled,
        ListenerKind::Grpc => s.server.grpc.enabled,
        ListenerKind::Metrics => s.metrics.enabled,
    }
}

/// The address the settings give the listener of kind `k`.
pub open spec fn listener_addr(s: LaunchSettings, k: ListenerKind) -> SocketAddress {
    match k {
        ListenerKind::Http => s.server.http.addr,
        ListenerKind::Grpc => s.server.grpc.addr,
        ListenerKind::Metrics => s.metrics.addr,
    }
}

/// The plan for kind `k`: one entry if it is enabled, none otherwise.
pub open spec fn plan_of(s: LaunchSettings, k: ListenerKind) -> Seq<ListenerPlan> {
    if listener_enabled(s, k) {
        seq![ListenerPlan { kind: k, addr: listener_addr(s, k) }]
    } else {
        seq![]
    }
}

/// The listeners a launch starts, in the order HTTP, gRPC, metrics.
pub open spec fn planned_listeners(s: LaunchSettings) -> Seq<ListenerPlan> {
    plan_of(s, ListenerKind::Http) + plan_of(s, ListenerKind::Grpc) + plan_of(
        s,
        ListenerKind::Metrics,
    )
}

/// Lists the listeners that `settings` enable, each with its bind address.
pub fn plan_listeners(settings: &LaunchSettings) -> (r: Vec<ListenerPlan>)
    ensures
        r@ == planned_listeners(*settings),
{
    let mut r: Vec<ListenerPlan> = Vec::new();
    if settings.server.http.enabled {
        r.push(ListenerPlan { kind: ListenerKind::Http, addr: settings.server.http.addr });
    }
    assert(r@ == plan_of(*settings, ListenerKind::Http));
    if settings.server.grpc.enabled {
        r.push(ListenerPlan { kind: ListenerKind::Grpc, addr: settings.server.grpc.addr });
    }
    assert(r@ == plan_of(*settings, ListenerKind::Http) + plan_of(*settings, ListenerKind::Grpc));
    if settings.metrics.enabled {
        r.push(ListenerPlan { kind: ListenerKind::Metrics, addr: settings.metrics.addr });
    }
    r
}

} // verus!
