//! The per-peer state machine and the handle given to application code.
use crate::control::{
    control_datagram, decode_control, frame_control, split_frame, ControlMessage,
};
use crate::handoff::{
    handoff, handoff_abandoned, handoff_send, handoff_try_take, TryTake,
};
use crate::phases::{
    classify, data_step, may_change, poll_step, retain_if, retain_when, Inbound, Phase, Retention,
    Take,
};
use crate::router::{route, route_decision, router_after, RouteOutcome, Router};
use crate::subs::{DirectSubscription, Subscriber};
use tokio::sync::oneshot::{Receiver, Sender};
use vstd::prelude::*;

verus! {

broadcast use vstd::std_specs::hash::group_hash_axioms;

/// Which side of the connection built a peer handle.
pub enum PeerQuirk {
    /// Built by a client when the server's `Negotiate` arrived.
    ClientSide,
    /// Built by a server on first contact. The receiver resolves once the
    /// client has echoed `Negotiate`; dropping it before then abandons the
    /// peer.
    ServerSide { client_negotiated: Receiver<()> },
}

/// The handle that application code gets for one remote endpoint.
#[verifier::reject_recursive_types(A)]
#[verifier::reject_recursive_types(T)]
pub struct NetworkPeer<A, T> {
    /// The remote address.
    pub remote_addr: A,
    /// Feeds the datagrams that the peer sends once connected.
    pub packets_to_send: DirectSubscription<T>,
    /// Takes the finished channel mapping, exactly once.
    pub packets_router: Sender<Router>,
    /// The side that built this handle.
    pub quirk: PeerQuirk,
}

/// The role-specific state of a peer that awaits negotiation.
pub enum AwaitingNegotiationReq {
    /// Server: waiting for application code to supply the mapping.
    ServerNegotiation {
        negotiation_recv: Receiver<Router>,
        client_negotiation_sender: Sender<()>,
    },
    /// Server: the mapping is ready and `Negotiate` went to the client.
    ServerAwaitNegotiateResponse {
        packets_router: Router,
        client_negotiation_sender: Sender<()>,
    },
    /// Client: waiting for application code to supply the mapping.
    ClientNegotiation { negotiation_recv: Receiver<Router> },
}

/// The protocol state of one remote endpoint.
#[verifier::reject_recursive_types(A)]
#[verifier::reject_recursive_types(T)]
pub enum PeerStateMachine<A, T> {
    /// Client only: waiting for the server's `Negotiate`; holds the sender
    /// that publishes the peer handle to application code.
    Connecting { peer_sender: Sender<NetworkPeer<A, T>> },
    /// Waiting for the channel mapping to be agreed.
    AwaitingNegotiation { packets_sub: Subscriber<T>, req: AwaitingNegotiationReq },
    /// Channels are agreed; bytes flow both ways.
    Connected { packets_sub: Subscriber<T>, packets_router: Router },
}

/// What a poll found for the transport to do.
pub struct PollOutcome<T> {
    /// What to do with the peer.
    pub retention: Retention,
    /// A control datagram to send reliably and in order, if any.
    pub control: Option<Vec<u8>>,
    /// Outbound application items to hand to the transport, oldest first.
    pub outbound: Vec<T>,
}

/// Reads the channel byte of a datagram and, on channel 0, its control
/// message.
pub fn parse_datagram(datagram: &[u8]) -> (r: Inbound)
    ensures
        r == classify(datagram@),
{
    match split_frame(datagram) {
        None => Inbound::Malformed,
        Some((payload, channel)) => {
            assert(payload@ == datagram@.drop_last());
            if channel != 0 {
                Inbound::Data(channel)
            } else {
                match decode_control(payload) {
                    Some(m) => Inbound::Control(m),
                    None => Inbound::Malformed,
                }
            }
        },
    }
}

impl<A, T> PeerStateMachine<A, T> {
    /// The phase this peer is in.
    pub open spec fn spec_phase(&self) -> Phase {
        match self {
            PeerStateMachine::Connecting { .. } => Phase::Connecting,
            PeerStateMachine::AwaitingNegotiation { req, .. } => match req {
                AwaitingNegotiationReq::ServerNegotiation { .. } => Phase::ServerNegotiation,
                AwaitingNegotiationReq::ServerAwaitNegotiateResponse {
                    ..
                } => Phase::ServerAwaitNegotiateResponse,
                AwaitingNegotiationReq::ClientNegotiation { .. } => Phase::ClientNegotiation,
            },
            PeerStateMachine::Connected { .. } => Phase::Connected,
        }
    }

    /// The channel mapping this peer holds; empty before it has one.
    pub open spec fn router_view(&self) -> Map<u8, crate::router::NetworkPublisher> {
        match self {
            PeerStateMachine::AwaitingNegotiation {
                req: AwaitingNegotiationReq::ServerAwaitNegotiateResponse { packets_router, .. },
                ..
            } => packets_router@,
            PeerStateMachine::Connected { packets_router, .. } => packets_router@,
            _ => Map::empty(),
        }
    }

    /// The buffer of outbound items, once the peer has one.
    pub open spec fn outbound_sub(&self) -> Option<Subscriber<T>> {
        match self {
            PeerStateMachine::AwaitingNegotiation { packets_sub, .. } => Some(*packets_sub),
            PeerStateMachine::Connected { packets_sub, .. } => Some(*packets_sub),
            _ => None,
        }
    }

    /// The sender that tells a server's application code that the client
    /// echoed `Negotiate`, while the server waits for that echo.
    pub open spec fn echo_sender(&self) -> Option<Sender<()>> {
        match self {
            PeerStateMachine::AwaitingNegotiation {
                req: AwaitingNegotiationReq::ServerNegotiation { client_negotiation_sender, .. },
                ..
            } => Some(*client_negotiation_sender),
            PeerStateMachine::AwaitingNegotiation {
                req:
                    AwaitingNegotiationReq::ServerAwaitNegotiateResponse {
                        client_negotiation_sender,
                        ..
                    },
                ..
            } => Some(*client_negotiation_sender),
            _ => None,
        }
    }

    /// The phase this peer is in.
    pub fn phase(&self) -> (r: Phase)
        ensures
            r == self.spec_phase(),
    {
        match self {
            PeerStateMachine::Connecting { .. } => Phase::Connecting,
            PeerStateMachine::AwaitingNegotiation { req, .. } => match req {
                AwaitingNegotiationReq::ServerNegotiation { .. } => Phase::ServerNegotiation,
                AwaitingNegotiationReq::ServerAwaitNegotiateResponse {
                    ..
                } => Phase::ServerAwaitNegotiateResponse,
                AwaitingNegotiationReq::ClientNegotiation { .. } => Phase::ClientNegotiation,
            },
            PeerStateMachine::Connected { .. } => Phase::Connected,
        }
    }

    /// A client peer whose connection request is out. The receiver yields
    /// the peer handle once the server's `Negotiate` arrives.
    pub fn new_client() -> (r: (PeerStateMachine<A, T>, Receiver<NetworkPeer<A, T>>))
        ensures
            r.0.spec_phase() == Phase::Connecting,
    {
        let (peer_sender, peer_recv) = handoff();
        (PeerStateMachine::Connecting { peer_sender }, peer_recv)
    }

    /// A server peer on first contact from `remote_addr`, with the handle
    /// for application code, which registers channels through it.
    pub fn new_server(remote_addr: A, peer_buffer_size: usize) -> (r: (
        PeerStateMachine<A, T>,
        NetworkPeer<A, T>,
    ))
        requires
            peer_buffer_size > 0,
        ensures
            r.0.spec_phase() == Phase::ServerNegotiation,
            r.1.remote_addr == remote_addr,
            r.1.quirk is ServerSide,
    {
        let (router_sender, router_recv) = handoff();
        let (echo_sender, echo_recv) = handoff();
        let packets_sub = Subscriber::new(peer_buffer_size);
        let peer = NetworkPeer {
            remote_addr,
            packets_to_send: packets_sub.create_subscription(),
            packets_router: router_sender,
            quirk: PeerQuirk::ServerSide { client_negotiated: echo_recv },
        };
        let machine = PeerStateMachine::AwaitingNegotiation {
            packets_sub,
            req: AwaitingNegotiationReq::ServerNegotiation {
                negotiation_recv: router_recv,
                client_negotiation_sender: echo_sender,
            },
        };
        (machine, peer)
    }

    /// Moves the state out, leaving a stand-in that is overwritten before
    /// the caller returns.
    fn take(&mut self) -> (r: PeerStateMachine<A, T>)
        ensures
            r == *old(self),
    {
        let (stand_in, _) = handoff();
        let mut state = PeerStateMachine::Connecting { peer_sender: stand_in };
        std::mem::swap(self, &mut state);
        state
    }

    /// The handle that a client publishes when the server's `Negotiate`
    /// arrives: it feeds `sub` and hands the mapping over `router_sender`.
    pub fn client_handle(addr: A, sub: &Subscriber<T>, router_sender: Sender<Router>) -> (r:
        NetworkPeer<A, T>)
        ensures
            r.remote_addr == addr,
            r.quirk is ClientSide,
            r.packets_router == router_sender,
            r.packets_to_send.spec_lag() == 0,
    {
        NetworkPeer {
            remote_addr: addr,
            packets_to_send: sub.create_subscription(),
            packets_router: router_sender,
            quirk: PeerQuirk::ClientSide,
        }
    }

    /// A client after publishing its handle: it awaits its own mapping,
    /// and is kept only if the handle reached application code.
    pub fn after_handle_sent(
        packets_sub: Subscriber<T>,
        negotiation_recv: Receiver<Router>,
        delivered: bool,
    ) -> (r: (PeerStateMachine<A, T>, Retention))
        ensures
            r.0 == (PeerStateMachine::<A, T>::AwaitingNegotiation {
                packets_sub,
                req: AwaitingNegotiationReq::ClientNegotiation { negotiation_recv },
            }),
            r.1 == retain_if(delivered),
    {
        let next = PeerStateMachine::AwaitingNegotiation {
            packets_sub,
            req: AwaitingNegotiationReq::ClientNegotiation { negotiation_recv },
        };
        (next, retain_when(delivered))
    }

    /// A server after signalling the client's echo: connected with the
    /// ready mapping when the signal was delivered, else dropped.
    pub fn after_echo(packets_sub: Subscriber<T>, packets_router: Router, delivered: bool) -> (r: (
        PeerStateMachine<A, T>,
        Retention,
    ))
        ensures
            delivered ==> r.0 == (PeerStateMachine::<A, T>::Connected {
                packets_sub,
                packets_router,
            }) && r.1 == Retention::Retain,
            !delivered ==> r.1 == Retention::Drop && r.0.spec_phase()
                == Phase::ServerAwaitNegotiateResponse && r.0.outbound_sub() == Some(packets_sub)
                && r.0.router_view() == packets_router@,
    {
        if delivered {
            (PeerStateMachine::Connected { packets_sub, packets_router }, Retention::Retain)
        } else {
            let (stand_in, _) = handoff();
            let req = AwaitingNegotiationReq::ServerAwaitNegotiateResponse {
                packets_router,
                client_negotiation_sender: stand_in,
            };
            (PeerStateMachine::AwaitingNegotiation { packets_sub, req }, Retention::Drop)
        }
    }

    /// Handles one inbound datagram from the peer at `addr`.
    ///
    /// The last byte names the channel. A `Disconnect` drops the peer in
    /// any phase and changes nothing. Before `Connected` only control
    /// messages matter; once connected, the payload without its channel
    /// byte goes to the registered sink of its channel.
    pub fn provide_data(&mut self, datagram: &[u8], addr: A, peer_buffer_size: usize) -> (r:
        Retention)
        requires
            old(self).spec_phase() == Phase::Connecting ==> peer_buffer_size > 0,
        ensures
            data_step(old(self).spec_phase(), classify(datagram@), true) == (
                final(self).spec_phase(),
                r,
            ) || data_step(old(self).spec_phase(), classify(datagram@), false) == (
                final(self).spec_phase(),
                r,
            ),
            !may_change(old(self).spec_phase(), classify(datagram@)) ==> *final(self) == *old(self),
            match classify(datagram@) {
                Inbound::Data(channel) => if old(self).spec_phase() == Phase::Connected {
                    exists|alive: bool|
                        #![trigger route_decision(old(self).router_view(), channel, alive)]
                        final(self).router_view() == router_after(
                            old(self).router_view(),
                            channel,
                            route_decision(old(self).router_view(), channel, alive),
                        )
                } else {
                    final(self).router_view() == old(self).router_view()
                },
                _ => final(self).router_view() == old(self).router_view(),
            },
            old(self).outbound_sub() is Some ==> final(self).outbound_sub()
                == old(self).outbound_sub(),
            old(self).spec_phase() == Phase::Connecting && classify(datagram@)
                == Inbound::Control(ControlMessage::Negotiate) ==> final(self).outbound_sub()
                is Some && final(self).outbound_sub()->0.wf()
                && final(self).outbound_sub()->0.spec_capacity() == peer_buffer_size,
    {
        let kind = parse_datagram(datagram);
        if kind == Inbound::Control(ControlMessage::Disconnect) {
            return Retention::Drop;
        }
        if kind == Inbound::Malformed {
            return Retention::Retain;
        }
        let ghost mut routed = RouteOutcome::Unrecognized;
        let state = self.take();
        let (next, r) = match state {
            PeerStateMachine::Connecting { peer_sender } => {
                if kind == Inbound::Control(ControlMessage::Negotiate) {
                    let (router_sender, router_recv) = handoff();
                    let packets_sub = Subscriber::new(peer_buffer_size);
                    let peer = Self::client_handle(addr, &packets_sub, router_sender);
                    let delivered = handoff_send(peer_sender, peer);
                    let (next, r) = Self::after_handle_sent(packets_sub, router_recv, delivered);
                    assert(data_step(Phase::Connecting, kind, delivered) == (
                        Phase::ClientNegotiation,
                        r,
                    ));
                    (next, r)
                } else if kind == Inbound::Control(ControlMessage::Ack) {
                    let gone = handoff_abandoned(&peer_sender);
                    let r = retain_when(!gone);
                    assert(data_step(Phase::Connecting, kind, !gone) == (Phase::Connecting, r));
                    (PeerStateMachine::Connecting { peer_sender }, r)
                } else {
                    (PeerStateMachine::Connecting { peer_sender }, Retention::Retain)
                }
            },
            PeerStateMachine::AwaitingNegotiation { packets_sub, req } => {
                match req {
                    AwaitingNegotiationReq::ServerAwaitNegotiateResponse {
                        packets_router,
                        client_negotiation_sender,
                    } => {
                        if kind == Inbound::Control(ControlMessage::Negotiate) {
                            let delivered = handoff_send(client_negotiation_sender, ());
                            let (next, r) = Self::after_echo(
                                packets_sub,
                                packets_router,
                                delivered,
                            );
                            assert(data_step(Phase::ServerAwaitNegotiateResponse, kind, delivered)
                                == (next.spec_phase(), r));
                            (next, r)
                        } else if kind == Inbound::Control(ControlMessage::Ack) {
                            let gone = handoff_abandoned(&client_negotiation_sender);
                            let r = retain_when(!gone);
                            assert(data_step(Phase::ServerAwaitNegotiateResponse, kind, !gone) == (
                                Phase::ServerAwaitNegotiateResponse,
                                r,
                            ));
                            let req = AwaitingNegotiationReq::ServerAwaitNegotiateResponse {
                                packets_router,
                                client_negotiation_sender,
                            };
                            (Self::AwaitingNegotiation { packets_sub, req }, r)
                        } else {
                            let req = AwaitingNegotiationReq::ServerAwaitNegotiateResponse {
                                packets_router,
                                client_negotiation_sender,
                            };
                            (Self::AwaitingNegotiation { packets_sub, req }, Retention::Retain)
                        }
                    },
                    req => (Self::AwaitingNegotiation { packets_sub, req }, Retention::Retain),
                }
            },
            PeerStateMachine::Connected { packets_sub, mut packets_router } => {
                if let Some((payload, channel)) = split_frame(datagram) {
                    if channel != 0 {
                        let bytes = vstd::slice::slice_to_vec(payload);
                        let o = route(&mut packets_router, channel, bytes);
                        proof {
                            routed = o;
                        }
                    }
                }
                (Self::Connected { packets_sub, packets_router }, Retention::Retain)
            },
        };
        *self = next;
        proof {
            if let Inbound::Data(channel) = kind {
                if old(self).spec_phase() == Phase::Connected {
                    let m = old(self).router_view();
                    if routed == route_decision(m, channel, true) {
                        assert(self.router_view() == router_after(
                            m,
                            channel,
                            route_decision(m, channel, true),
                        ));
                    } else {
                        assert(self.router_view() == router_after(
                            m,
                            channel,
                            route_decision(m, channel, false),
                        ));
                    }
                }
            }
        }
        r
    }

    /// Drives the peer between datagrams; called on a fixed interval.
    ///
    /// A connecting client is dropped once application code stopped
    /// waiting for its handle. A peer awaiting negotiation takes the channel
    /// mapping without waiting: once it is there, `Negotiate` goes to the
    /// remote side and a server waits for the echo while a client is
    /// connected at once; a mapping abandoned unsent drops the peer. A
    /// connected peer hands its buffered outbound items to the transport and
    /// is dropped once it has neither channels nor publishers left.
    pub fn poll(&mut self) -> (r: PollOutcome<T>)
        ensures
            exists|take: Take, paired: bool, idle: bool|
                poll_step(old(self).spec_phase(), take, paired, idle) == (
                    final(self).spec_phase(),
                    r.retention,
                    r.control is Some,
                ) && (idle ==> old(self).router_view().is_empty()),
            r.control matches Some(c) ==> c@ == control_datagram(ControlMessage::Negotiate),
            old(self).spec_phase() != Phase::Connected ==> r.outbound.len() == 0,
            old(self).spec_phase() == Phase::Connecting || old(self).spec_phase()
                == Phase::ServerAwaitNegotiateResponse || old(self).spec_phase()
                == Phase::Connected ==> *final(self) == *old(self),
            r.retention == Retention::Retain && r.control is None ==> *final(self) == *old(self),
            old(self).outbound_sub() is Some ==> final(self).outbound_sub()
                == old(self).outbound_sub(),
            final(self).spec_phase() == Phase::ServerAwaitNegotiateResponse ==> final(self)
                .echo_sender() == old(self).echo_sender(),
    {
        let ghost mut took = Take::Pending;
        let ghost mut paired = true;
        let ghost mut idle = false;
        let state = self.take();
        let (next, r) = match state {
            PeerStateMachine::Connecting { peer_sender } => {
                let gone = handoff_abandoned(&peer_sender);
                proof {
                    paired = !gone;
                }
                (PeerStateMachine::Connecting { peer_sender }, quiet_outcome(!gone))
            },
            PeerStateMachine::AwaitingNegotiation { packets_sub, req } => match req {
                AwaitingNegotiationReq::ServerAwaitNegotiateResponse {
                    packets_router,
                    client_negotiation_sender,
                } => {
                    let gone = handoff_abandoned(&client_negotiation_sender);
                    proof {
                        paired = !gone;
                    }
                    let req = AwaitingNegotiationReq::ServerAwaitNegotiateResponse {
                        packets_router,
                        client_negotiation_sender,
                    };
                    (Self::AwaitingNegotiation { packets_sub, req }, quiet_outcome(!gone))
                },
                AwaitingNegotiationReq::ServerNegotiation {
                    mut negotiation_recv,
                    client_negotiation_sender,
                } => {
                    let got = handoff_try_take(&mut negotiation_recv);
                    proof {
                        took = take_of(&got);
                    }
                    let req = AwaitingNegotiationReq::ServerNegotiation {
                        negotiation_recv,
                        client_negotiation_sender,
                    };
                    Self::advance_awaiting(packets_sub, req, got)
                },
                AwaitingNegotiationReq::ClientNegotiation { mut negotiation_recv } => {
                    let got = handoff_try_take(&mut negotiation_recv);
                    proof {
                        took = take_of(&got);
                    }
                    let req = AwaitingNegotiationReq::ClientNegotiation { negotiation_recv };
                    Self::advance_awaiting(packets_sub, req, got)
                },
            },
            PeerStateMachine::Connected { packets_sub, packets_router } => {
                let outbound = drain(&packets_sub);
                let retention = connected_verdict(
                    packets_router.is_empty(),
                    packets_sub.get_pub_count(),
                );
                proof {
                    idle = retention == Retention::Drop;
                }
                let r = PollOutcome { retention, control: None, outbound };
                (Self::Connected { packets_sub, packets_router }, r)
            },
        };
        *self = next;
        proof {
            assert(poll_step(old(self).spec_phase(), took, paired, idle) == (
                self.spec_phase(),
                r.retention,
                r.control is Some,
            ));
        }
        r
    }

    /// A peer awaiting its channel mapping, after a take found `took`.
    ///
    /// With the mapping, `Negotiate` is due to the remote side: a server
    /// then awaits the echo holding the mapping and its echo sender, a
    /// client is connected with it at once. Nothing yet keeps the peer as it
    /// is; a mapping abandoned unsent drops it.
    pub fn advance_awaiting(
        packets_sub: Subscriber<T>,
        req: AwaitingNegotiationReq,
        took: TryTake<Router>,
    ) -> (r: (PeerStateMachine<A, T>, PollOutcome<T>))
        requires
            !(req is ServerAwaitNegotiateResponse),
        ensures
            r.1.outbound.len() == 0,
            took is Ready ==> r.0.router_view() == took->0@ && r.1.retention == Retention::Retain
                && r.1.control is Some && r.1.control->0@ == control_datagram(
                ControlMessage::Negotiate,
            ),
            took is Ready && req is ServerNegotiation ==> r.0 == (
            PeerStateMachine::<A, T>::AwaitingNegotiation {
                packets_sub,
                req: AwaitingNegotiationReq::ServerAwaitNegotiateResponse {
                    packets_router: took->0,
                    client_negotiation_sender: req->ServerNegotiation_client_negotiation_sender,
                },
            }),
            took is Ready && req is ClientNegotiation ==> r.0 == (
            PeerStateMachine::<A, T>::Connected { packets_sub, packets_router: took->0 }),
            took is Pending ==> r.0 == (PeerStateMachine::<A, T>::AwaitingNegotiation {
                packets_sub,
                req,
            }) && r.1.retention == Retention::Retain && r.1.control is None,
            took is Abandoned ==> r.0 == (PeerStateMachine::<A, T>::AwaitingNegotiation {
                packets_sub,
                req,
            }) && r.1.retention == Retention::Drop && r.1.control is None,
    {
        match took {
            TryTake::Ready(packets_router) => match req {
                AwaitingNegotiationReq::ServerNegotiation { client_negotiation_sender, .. } => {
                    let req = AwaitingNegotiationReq::ServerAwaitNegotiateResponse {
                        packets_router,
                        client_negotiation_sender,
                    };
                    (Self::AwaitingNegotiation { packets_sub, req }, negotiate_outcome())
                },
                _ => (Self::Connected { packets_sub, packets_router }, negotiate_outcome()),
            },
            TryTake::Pending => (
                Self::AwaitingNegotiation { packets_sub, req },
                quiet_outcome(true),
            ),
            TryTake::Abandoned => (
                Self::AwaitingNegotiation { packets_sub, req },
                quiet_outcome(false),
            ),
        }
    }
}

/// The model's name for what a take found.
spec fn take_of<V>(t: &TryTake<V>) -> Take {
    match t {
        TryTake::Ready(_) => Take::Ready,
        TryTake::Pending => Take::Pending,
        TryTake::Abandoned => Take::Abandoned,
    }
}

/// The verdict on a connected peer: dropped once it has neither channels
/// nor publishers left.
pub fn connected_verdict(router_empty: bool, pub_count: usize) -> (r: Retention)
    ensures
        r == retain_if(!(router_empty && pub_count == 0)),
{
    retain_when(!(router_empty && pub_count == 0))
}

/// A poll outcome that sends nothing.
fn quiet_outcome<T>(keep: bool) -> (r: PollOutcome<T>)
    ensures
        r.retention == crate::phases::retain_if(keep),
        r.control is None,
        r.outbound.len() == 0,
{
    PollOutcome {
        retention: if keep {
            Retention::Retain
        } else {
            Retention::Drop
        },
        control: None,
        outbound: Vec::new(),
    }
}

/// A poll outcome that sends `Negotiate` and keeps the peer.
fn negotiate_outcome<T>() -> (r: PollOutcome<T>)
    ensures
        r.retention == Retention::Retain,
        r.control matches Some(c) && c@ == control_datagram(ControlMessage::Negotiate),
        r.outbound.len() == 0,
{
    PollOutcome {
        retention: Retention::Retain,
        control: Some(frame_control(ControlMessage::Negotiate)),
        outbound: Vec::new(),
    }
}

/// Takes what is buffered in a subscriber, oldest first, at most one
/// capacity's worth, so that producers that keep pushing cannot hold the
/// caller.
pub fn drain<T>(sub: &Subscriber<T>) -> (r: Vec<T>)
    ensures
        r.len() <= sub.spec_capacity(),
{
    let capacity = sub.capacity();
    let mut out: Vec<T> = Vec::new();
    let mut i: usize = 0;
    while i < capacity
        invariant
            i <= capacity,
            capacity == sub.spec_capacity(),
            out.len() == i,
        decreases capacity - i,
    {
        match sub.try_recv() {
            Some(item) => out.push(item),
            None => break,
        }
        i += 1;
    }
    out
}

} // verus!
