//! The connection phases of a peer and the transitions between them.
//!
//! Each operation of a peer is modelled as a step from a phase and an event
//! to the next phase and a retention verdict. What other tasks do (whether
//! a paired one-shot half is still there, whether a mapping has been
//! supplied, whether publishers remain) enters a step as an observation.
use crate::control::{spec_decode, ControlMessage};
use vstd::prelude::*;

verus! {

/// What the caller must do with a peer after an operation.
#[derive(Clone, Copy, Debug, PartialEq, Eq, Structural)]
pub enum Retention {
    /// Discard the peer; no further calls on it are valid.
    Drop,
    /// Keep the peer.
    Retain,
}

/// The connection phase of a peer.
#[derive(Clone, Copy, Debug, PartialEq, Eq, Structural)]
pub enum Phase {
    /// Client only: the connection request is out, no `Negotiate` yet.
    Connecting,
    /// Server: waiting for application code to build the channel mapping.
    ServerNegotiation,
    /// Server: the mapping went to the client; waiting for its `Negotiate`.
    ServerAwaitNegotiateResponse,
    /// Client: waiting for application code to build the channel mapping.
    ClientNegotiation,
    /// Channels are agreed; application bytes flow.
    Connected,
}

/// What an inbound datagram carries.
#[derive(Clone, Copy, Debug, PartialEq, Eq, Structural)]
pub enum Inbound {
    /// A control message on channel 0.
    Control(ControlMessage),
    /// An empty datagram, or channel 0 with bytes that decode to no message.
    Malformed,
    /// Application bytes on a non-zero channel.
    Data(u8),
}

/// What a non-blocking take of the channel mapping found.
#[derive(Clone, Copy, Debug, PartialEq, Eq, Structural)]
pub enum Take {
    /// The mapping had been supplied.
    Ready,
    /// Nothing supplied yet.
    Pending,
    /// The application side gave up without supplying it.
    Abandoned,
}

/// How a datagram is read: its last byte names the channel.
pub open spec fn classify(datagram: Seq<u8>) -> Inbound {
    if datagram.len() == 0 {
        Inbound::Malformed
    } else if datagram.last() != 0 {
        Inbound::Data(datagram.last())
    } else {
        match spec_decode(datagram.drop_last()) {
            Some(m) => Inbound::Control(m),
            None => Inbound::Malformed,
        }
    }
}

/// `Retain` when `keep` holds, else `Drop`.
pub open spec fn retain_if(keep: bool) -> Retention {
    if keep {
        Retention::Retain
    } else {
        Retention::Drop
    }
}

/// Returns `Retain` when `keep` holds, else `Drop`.
pub fn retain_when(keep: bool) -> (r: Retention)
    ensures
        r == retain_if(keep),
{
    if keep {
        Retention::Retain
    } else {
        Retention::Drop
    }
}

/// Whether a datagram of this kind can change a peer in this phase: only a
/// `Negotiate` that completes a handshake step, or application bytes routed
/// while connected.
pub open spec fn may_change(p: Phase, k: Inbound) -> bool {
    ||| (p == Phase::Connected && k is Data)
    ||| (k == Inbound::Control(ControlMessage::Negotiate) && (p == Phase::Connecting || p
        == Phase::ServerAwaitNegotiateResponse))
}

/// The step taken on an inbound datagram.
///
/// `paired` is what the one operation on a paired one-shot half found: on
/// `Negotiate`, whether handing over succeeded; on `Ack`, whether the other
/// half is still there. It matters only where such an operation is made.
pub open spec fn data_step(p: Phase, k: Inbound, paired: bool) -> (Phase, Retention) {
    match k {
        Inbound::Control(ControlMessage::Disconnect) => (p, Retention::Drop),
        Inbound::Control(ControlMessage::Negotiate) => match p {
            Phase::Connecting => (Phase::ClientNegotiation, retain_if(paired)),
            Phase::ServerAwaitNegotiateResponse => if paired {
                (Phase::Connected, Retention::Retain)
            } else {
                (p, Retention::Drop)
            },
            _ => (p, Retention::Retain),
        },
        Inbound::Control(ControlMessage::Ack) => match p {
            Phase::Connecting => (p, retain_if(paired)),
            Phase::ServerAwaitNegotiateResponse => (p, retain_if(paired)),
            _ => (p, Retention::Retain),
        },
        Inbound::Malformed => (p, Retention::Retain),
        Inbound::Data(_) => (p, Retention::Retain),
    }
}

/// The step taken on a poll, with whether it sends `Negotiate` to the
/// remote side.
///
/// `take` is what a take of the channel mapping found, `paired` whether the
/// paired one-shot receiver is still there, and `idle` whether a connected
/// peer has neither channels nor publishers left.
pub open spec fn poll_step(p: Phase, take: Take, paired: bool, idle: bool) -> (
    Phase,
    Retention,
    bool,
) {
    match p {
        Phase::Connecting => (p, retain_if(paired), false),
        Phase::ServerNegotiation => match take {
            Take::Ready => (Phase::ServerAwaitNegotiateResponse, Retention::Retain, true),
            Take::Pending => (p, Retention::Retain, false),
            Take::Abandoned => (p, Retention::Drop, false),
        },
        Phase::ServerAwaitNegotiateResponse => (p, retain_if(paired), false),
        Phase::ClientNegotiation => match take {
            Take::Ready => (Phase::Connected, Retention::Retain, true),
            Take::Pending => (p, Retention::Retain, false),
            Take::Abandoned => (p, Retention::Drop, false),
        },
        Phase::Connected => (p, retain_if(!idle), false),
    }
}

/// One operation on a peer, with what it observed.
pub enum Event {
    /// `provide_data` with a datagram read as `Inbound`.
    Datagram(Inbound, bool),
    /// `poll`.
    Poll(Take, bool, bool),
}

/// The phase and verdict after one event.
pub open spec fn event_step(p: Phase, e: Event) -> (Phase, Retention) {
    match e {
        Event::Datagram(k, paired) => data_step(p, k, paired),
        Event::Poll(take, paired, idle) => {
            let (q, r, _) = poll_step(p, take, paired, idle);
            (q, r)
        },
    }
}

/// The phase after a run of events; `None` once a step says `Drop`.
pub open spec fn run(p: Phase, events: Seq<Event>) -> Option<Phase>
    decreases events.len(),
{
    if events.len() == 0 {
        Some(p)
    } else {
        let (q, r) = event_step(p, events[0]);
        if r == Retention::Drop {
            None
        } else {
            run(q, events.drop_first())
        }
    }
}

/// The event is a poll that found the channel mapping supplied.
pub open spec fn is_mapping_supplied(e: Event) -> bool {
    e matches Event::Poll(Take::Ready, _, _)
}

/// The event is a datagram that carries `Negotiate`.
pub open spec fn is_negotiate_received(e: Event) -> bool {
    e matches Event::Datagram(Inbound::Control(ControlMessage::Negotiate), _)
}

proof fn lemma_await_connects_only_after_echo(events: Seq<Event>)
    requires
        run(Phase::ServerAwaitNegotiateResponse, events) == Some(Phase::Connected),
    ensures
        exists|j: int| 0 <= j < events.len() && is_negotiate_received(#[trigger] events[j]),
    decreases events.len(),
{
    let e = events[0];
    let (q, r) = event_step(Phase::ServerAwaitNegotiateResponse, e);
    if is_negotiate_received(e) {
        assert(is_negotiate_received(events[0]));
    } else {
        assert(q == Phase::ServerAwaitNegotiateResponse);
        lemma_await_connects_only_after_echo(events.drop_first());
        let j = choose|j: int|
            0 <= j < events.drop_first().len() && is_negotiate_received(
                #[trigger] events.drop_first()[j],
            );
        assert(events[j + 1] == events.drop_first()[j]);
    }
}

/// A server peer reaches `Connected` only after a poll found the channel
/// mapping supplied by its application code and, later, a `Negotiate` echo
/// arrived from the client.
pub proof fn lemma_server_connects_only_after_mapping_and_echo(events: Seq<Event>)
    requires
        run(Phase::ServerNegotiation, events) == Some(Phase::Connected),
    ensures
        exists|i: int, j: int|
            0 <= i < j < events.len() && is_mapping_supplied(#[trigger] events[i])
                && is_negotiate_received(#[trigger] events[j]),
    decreases events.len(),
{
    let e = events[0];
    let (q, r) = event_step(Phase::ServerNegotiation, e);
    let rest = events.drop_first();
    if is_mapping_supplied(e) {
        assert(q == Phase::ServerAwaitNegotiateResponse);
        lemma_await_connects_only_after_echo(rest);
        let j = choose|j: int| 0 <= j < rest.len() && is_negotiate_received(#[trigger] rest[j]);
        assert(events[j + 1] == rest[j]);
        assert(is_mapping_supplied(events[0]));
    } else {
        assert(q == Phase::ServerNegotiation);
        lemma_server_connects_only_after_mapping_and_echo(rest);
        let (i, j) = choose|i: int, j: int|
            0 <= i < j < rest.len() && is_mapping_supplied(#[trigger] rest[i])
                && is_negotiate_received(#[trigger] rest[j]);
        assert(events[i + 1] == rest[i]);
        assert(events[j + 1] == rest[j]);
    }
}

/// A client peer that receives the server's `Negotiate` while connecting
/// waits for its own mapping, and reaches `Connected` on the first poll that
/// finds it supplied, sending `Negotiate` back without waiting for a reply.
pub proof fn lemma_client_connects_on_own_mapping(paired: bool, idle: bool)
    ensures
        data_step(
            Phase::Connecting,
            Inbound::Control(ControlMessage::Negotiate),
            true,
        ) == (Phase::ClientNegotiation, Retention::Retain),
        poll_step(Phase::ClientNegotiation, Take::Ready, paired, idle) == (
            Phase::Connected,
            Retention::Retain,
            true,
        ),
{
}

/// A `Disconnect` makes any phase say `Drop` and stay where it was.
pub proof fn lemma_disconnect_drops(p: Phase, paired: bool)
    ensures
        data_step(p, Inbound::Control(ControlMessage::Disconnect), paired) == (p, Retention::Drop),
{
}

} // verus!
