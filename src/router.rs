//! Routing of inbound application bytes to per-channel sinks.
use std::collections::HashMap;
use vstd::prelude::*;

verus! {

broadcast use vstd::std_specs::hash::group_hash_axioms;

/// Where the bytes of one application channel go.
///
/// Implemented per application channel type; the payload type is erased at
/// this boundary.
pub trait ChannelSink: Send + Sync {
    /// Hands the bytes of one datagram to the application.
    fn deliver(&self, bytes: Vec<u8>);

    /// Whether the application side of this channel still listens.
    fn is_alive(&self) -> bool;
}

/// A registered application channel: the sink that its bytes go to.
pub struct NetworkPublisher {
    sink: Box<dyn ChannelSink>,
}

impl NetworkPublisher {
    /// Wraps a sink.
    pub fn new(sink: Box<dyn ChannelSink>) -> NetworkPublisher {
        NetworkPublisher { sink }
    }

    /// Whether the application side still listens.
    pub fn is_alive(&self) -> bool {
        self.sink.is_alive()
    }

    /// Hands bytes to the application.
    pub fn deliver(&self, bytes: Vec<u8>) {
        self.sink.deliver(bytes)
    }
}

/// The negotiated mapping from channel id to sink.
pub type Router = HashMap<u8, NetworkPublisher>;

/// What a route attempt did.
#[derive(Clone, Copy, Debug, PartialEq, Eq, Structural)]
pub enum RouteOutcome {
    /// The sink was alive and got the bytes.
    Delivered,
    /// The sink had gone; its entry was removed and the bytes discarded.
    Removed,
    /// No sink is registered for the channel; the bytes were discarded.
    Unrecognized,
}

/// The mapping after a route attempt with the given outcome.
pub open spec fn router_after<V>(m: Map<u8, V>, channel: u8, outcome: RouteOutcome) -> Map<u8, V> {
    if outcome == RouteOutcome::Removed {
        m.remove(channel)
    } else {
        m
    }
}

/// The outcomes that a route attempt on `channel` may have, whatever the
/// sink's liveness check answers.
pub open spec fn route_possible<V>(m: Map<u8, V>, channel: u8, outcome: RouteOutcome) -> bool {
    (outcome == RouteOutcome::Unrecognized) == !m.contains_key(channel)
}

/// What a route attempt on `channel` does, given the sink's liveness answer.
pub open spec fn route_decision<V>(m: Map<u8, V>, channel: u8, alive: bool) -> RouteOutcome {
    if !m.contains_key(channel) {
        RouteOutcome::Unrecognized
    } else if alive {
        RouteOutcome::Delivered
    } else {
        RouteOutcome::Removed
    }
}

/// Applies a liveness answer to the mapping: an unregistered channel is
/// unrecognized, a live sink is due the bytes, and a dead sink is removed.
pub fn route_decided(router: &mut Router, channel: u8, alive: bool) -> (r: RouteOutcome)
    requires
        channel != 0,
    ensures
        r == route_decision(old(router)@, channel, alive),
        final(router)@ == router_after(old(router)@, channel, r),
{
    if !router.contains_key(&channel) {
        RouteOutcome::Unrecognized
    } else if alive {
        RouteOutcome::Delivered
    } else {
        router.remove(&channel);
        RouteOutcome::Removed
    }
}

/// Routes the bytes of one datagram on `channel`.
///
/// An unregistered channel leaves the mapping as it is. A registered sink
/// is asked whether it is alive: if so it gets exactly `bytes`, else it is
/// removed and never invoked again.
pub fn route(router: &mut Router, channel: u8, bytes: Vec<u8>) -> (r: RouteOutcome)
    requires
        channel != 0,
    ensures
        r == route_decision(old(router)@, channel, true) || r == route_decision(
            old(router)@,
            channel,
            false,
        ),
        route_possible(old(router)@, channel, r),
        final(router)@ == router_after(old(router)@, channel, r),
        r == RouteOutcome::Removed ==> !final(router)@.contains_key(channel),
{
    let alive = match router.get(&channel) {
        Some(publisher) => publisher.is_alive(),
        None => false,
    };
    let r = route_decided(router, channel, alive);
    if r == RouteOutcome::Delivered {
        if let Some(publisher) = router.get(&channel) {
            publisher.deliver(bytes);
        }
    }
    r
}

/// Once a route attempt has removed a dead channel, every later attempt on
/// that channel reports it unrecognized and leaves the mapping unchanged.
pub proof fn lemma_removed_channel_stays_unrecognized<V>(m: Map<u8, V>, channel: u8)
    requires
        m.contains_key(channel),
    ensures
        route_possible(m, channel, RouteOutcome::Removed),
        forall|later: RouteOutcome|
            route_possible(router_after(m, channel, RouteOutcome::Removed), channel, later)
                ==> later == RouteOutcome::Unrecognized && router_after(
                router_after(m, channel, RouteOutcome::Removed),
                channel,
                later,
            ) == router_after(m, channel, RouteOutcome::Removed),
{
}

} // verus!
