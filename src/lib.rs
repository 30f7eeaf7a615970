//! Peer-session protocol layer for datagram links between robotics nodes.
//!
//! A `PeerStateMachine` is kept per remote endpoint. It consumes inbound
//! datagrams, negotiates the set of application channels with the remote
//! side, and then routes application bytes to registered sinks.
pub mod control;
pub mod router;
pub mod subs;
pub mod handoff;
pub mod phases;
pub mod peer;
