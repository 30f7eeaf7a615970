use networking::handoff::TryTake;
use networking::peer::{connected_verdict, AwaitingNegotiationReq};
use networking::phases::retain_when;
use networking::subs::Subscriber;
use networking::control::{frame, frame_control, ControlMessage};
use networking::peer::{NetworkPeer, PeerQuirk, PeerStateMachine};
use networking::phases::{Phase, Retention};
use networking::router::{ChannelSink, NetworkPublisher, Router};
use networking::subs::{PublisherToken, Subscription};
use std::sync::atomic::{AtomicBool, Ordering};
use std::sync::{Arc, Mutex};
use tokio::sync::oneshot::error::TryRecvError;

type Peer = PeerStateMachine<u32, Vec<u8>>;
type Handle = NetworkPeer<u32, Vec<u8>>;

struct Recorder {
    got: Arc<Mutex<Vec<Vec<u8>>>>,
    alive: Arc<AtomicBool>,
}

impl ChannelSink for Recorder {
    fn deliver(&self, bytes: Vec<u8>) {
        self.got.lock().unwrap().push(bytes);
    }

    fn is_alive(&self) -> bool {
        self.alive.load(Ordering::SeqCst)
    }
}

fn mapping(channel: u8) -> (Router, Arc<Mutex<Vec<Vec<u8>>>>, Arc<AtomicBool>) {
    let got = Arc::new(Mutex::new(Vec::new()));
    let alive = Arc::new(AtomicBool::new(true));
    let sink = Recorder { got: got.clone(), alive: alive.clone() };
    let mut router = Router::new();
    router.insert(channel, NetworkPublisher::new(Box::new(sink)));
    (router, got, alive)
}

fn control(m: ControlMessage) -> Vec<u8> {
    frame_control(m)
}

/// Runs the handshake of a client and a server; returns both peers, both
/// handles and the sinks of channel 1 on each side.
fn handshake() -> (
    Peer,
    Peer,
    Handle,
    Handle,
    Arc<Mutex<Vec<Vec<u8>>>>,
    Arc<Mutex<Vec<Vec<u8>>>>,
) {
    let (mut client, mut handle_rx) = Peer::new_client();
    let (mut server, server_handle) = Peer::new_server(7, 8);
    assert_eq!(client.phase(), Phase::Connecting);
    assert_eq!(server.phase(), Phase::ServerNegotiation);

    let (map_a, sink_a, _) = mapping(1);
    let NetworkPeer { remote_addr, packets_to_send, packets_router, quirk } = server_handle;
    assert!(packets_router.send(map_a).is_ok());
    let server_handle = NetworkPeer {
        remote_addr,
        packets_to_send,
        packets_router: tokio::sync::oneshot::channel().0,
        quirk,
    };

    let out = server.poll();
    assert_eq!(out.retention, Retention::Retain);
    assert_eq!(server.phase(), Phase::ServerAwaitNegotiateResponse);
    let negotiate = out.control.expect("server sends Negotiate");
    assert_eq!(negotiate, control(ControlMessage::Negotiate));

    assert_eq!(client.provide_data(&negotiate, 9, 8), Retention::Retain);
    assert_eq!(client.phase(), Phase::ClientNegotiation);
    let client_handle = handle_rx.try_recv().expect("client handle published");
    assert_eq!(client_handle.remote_addr, 9);
    assert!(matches!(client_handle.quirk, PeerQuirk::ClientSide));

    let (map_b, sink_b, _) = mapping(1);
    let NetworkPeer { remote_addr, packets_to_send, packets_router, quirk } = client_handle;
    assert!(packets_router.send(map_b).is_ok());
    let client_handle = NetworkPeer {
        remote_addr,
        packets_to_send,
        packets_router: tokio::sync::oneshot::channel().0,
        quirk,
    };

    let out = client.poll();
    assert_eq!(out.retention, Retention::Retain);
    assert_eq!(client.phase(), Phase::Connected);
    let echo = out.control.expect("client sends Negotiate");
    assert_eq!(echo, control(ControlMessage::Negotiate));

    assert_eq!(server.phase(), Phase::ServerAwaitNegotiateResponse);
    assert_eq!(server.provide_data(&echo, 9, 8), Retention::Retain);
    assert_eq!(server.phase(), Phase::Connected);

    (client, server, client_handle, server_handle, sink_b, sink_a)
}

#[test]
fn full_handshake_then_data_flows() {
    let (mut client, mut server, _ch, server_handle, sink_b, sink_a) = handshake();
    let PeerQuirk::ServerSide { mut client_negotiated } = server_handle.quirk else {
        panic!("server handle must be server side");
    };
    assert_eq!(client_negotiated.try_recv(), Ok(()));

    assert_eq!(server.provide_data(&frame(vec![42, 43], 1), 9, 8), Retention::Retain);
    assert_eq!(*sink_a.lock().unwrap(), vec![vec![42, 43]]);
    assert_eq!(client.provide_data(&frame(vec![7], 1), 7, 8), Retention::Retain);
    assert_eq!(*sink_b.lock().unwrap(), vec![vec![7]]);
}

#[test]
fn server_waits_for_mapping_and_echo() {
    let (mut server, handle) = Peer::new_server(1, 4);
    // Negotiate before the mapping is supplied is ignored.
    assert_eq!(server.provide_data(&control(ControlMessage::Negotiate), 1, 4), Retention::Retain);
    assert_eq!(server.phase(), Phase::ServerNegotiation);
    let out = server.poll();
    assert_eq!(out.retention, Retention::Retain);
    assert!(out.control.is_none());
    assert_eq!(server.phase(), Phase::ServerNegotiation);

    let (map, _, _) = mapping(2);
    let NetworkPeer { packets_router, quirk, .. } = handle;
    assert!(packets_router.send(map).is_ok());
    let out = server.poll();
    assert!(out.control.is_some());
    assert_eq!(server.phase(), Phase::ServerAwaitNegotiateResponse);
    // Still no Connected without the echo.
    let out = server.poll();
    assert_eq!(out.retention, Retention::Retain);
    assert_eq!(server.phase(), Phase::ServerAwaitNegotiateResponse);
    assert_eq!(server.provide_data(&control(ControlMessage::Ack), 1, 4), Retention::Retain);
    assert_eq!(server.phase(), Phase::ServerAwaitNegotiateResponse);
    assert_eq!(server.provide_data(&control(ControlMessage::Negotiate), 1, 4), Retention::Retain);
    assert_eq!(server.phase(), Phase::Connected);
    drop(quirk);
}

#[test]
fn negotiation_sender_dropped_drops_peer() {
    let (mut server, handle) = Peer::new_server(1, 4);
    drop(handle);
    assert_eq!(server.poll().retention, Retention::Drop);

    let (mut client, mut handle_rx) = Peer::new_client();
    assert_eq!(client.provide_data(&control(ControlMessage::Negotiate), 5, 4), Retention::Retain);
    let client_handle = handle_rx.try_recv().unwrap();
    drop(client_handle);
    assert_eq!(client.poll().retention, Retention::Drop);
}

#[test]
fn disconnect_drops_in_every_phase() {
    let bye = control(ControlMessage::Disconnect);
    let (mut connecting, _rx) = Peer::new_client();
    assert_eq!(connecting.provide_data(&bye, 1, 4), Retention::Drop);
    assert_eq!(connecting.phase(), Phase::Connecting);

    let (mut server, _handle) = Peer::new_server(1, 4);
    assert_eq!(server.provide_data(&bye, 1, 4), Retention::Drop);
    assert_eq!(server.phase(), Phase::ServerNegotiation);

    let (mut awaiting, handle) = Peer::new_server(1, 4);
    let (map, _, _) = mapping(1);
    let NetworkPeer { packets_router, quirk, .. } = handle;
    assert!(packets_router.send(map).is_ok());
    awaiting.poll();
    assert_eq!(awaiting.phase(), Phase::ServerAwaitNegotiateResponse);
    assert_eq!(awaiting.provide_data(&bye, 1, 4), Retention::Drop);
    assert_eq!(awaiting.phase(), Phase::ServerAwaitNegotiateResponse);
    drop(quirk);

    let (mut negotiating, mut handle_rx) = Peer::new_client();
    negotiating.provide_data(&control(ControlMessage::Negotiate), 1, 4);
    let _client_handle = handle_rx.try_recv().unwrap();
    assert_eq!(negotiating.phase(), Phase::ClientNegotiation);
    assert_eq!(negotiating.provide_data(&bye, 1, 4), Retention::Drop);
    assert_eq!(negotiating.phase(), Phase::ClientNegotiation);

    let (mut client, mut server, _a, _b, sink_b, sink_a) = handshake();
    assert_eq!(client.provide_data(&bye, 1, 4), Retention::Drop);
    assert_eq!(client.phase(), Phase::Connected);
    assert_eq!(server.provide_data(&bye, 1, 4), Retention::Drop);
    assert!(sink_a.lock().unwrap().is_empty());
    assert!(sink_b.lock().unwrap().is_empty());
}

#[test]
fn connecting_client_handles_ack_and_abandonment() {
    let (mut client, handle_rx) = Peer::new_client();
    assert_eq!(client.provide_data(&control(ControlMessage::Ack), 1, 4), Retention::Retain);
    assert_eq!(client.poll().retention, Retention::Retain);
    // Application bytes and malformed datagrams are ignored while connecting.
    assert_eq!(client.provide_data(&[1, 2, 3], 1, 4), Retention::Retain);
    assert_eq!(client.provide_data(&[], 1, 4), Retention::Retain);
    assert_eq!(client.phase(), Phase::Connecting);
    drop(handle_rx);
    assert_eq!(client.provide_data(&control(ControlMessage::Ack), 1, 4), Retention::Drop);
    assert_eq!(client.poll().retention, Retention::Drop);
}

#[test]
fn negotiate_with_receiver_gone_drops_client() {
    let (mut client, handle_rx) = Peer::new_client();
    drop(handle_rx);
    assert_eq!(client.provide_data(&control(ControlMessage::Negotiate), 1, 4), Retention::Drop);
}

#[test]
fn server_drops_when_echo_receiver_gone() {
    let (mut server, handle) = Peer::new_server(1, 4);
    let (map, _, _) = mapping(1);
    let NetworkPeer { packets_router, quirk, .. } = handle;
    assert!(packets_router.send(map).is_ok());
    assert_eq!(server.poll().retention, Retention::Retain);
    drop(quirk);
    assert_eq!(server.provide_data(&control(ControlMessage::Ack), 1, 4), Retention::Drop);
    assert_eq!(server.poll().retention, Retention::Drop);
    assert_eq!(server.provide_data(&control(ControlMessage::Negotiate), 1, 4), Retention::Drop);
}

#[test]
fn connected_routes_and_reaps() {
    let (mut client, mut server, client_handle, _sh, sink_b, _sink_a) = handshake();
    // Unknown channel: nothing delivered, peer kept.
    assert_eq!(client.provide_data(&frame(vec![1], 9), 7, 8), Retention::Retain);
    assert!(sink_b.lock().unwrap().is_empty());
    // Control messages other than Disconnect are tolerated.
    assert_eq!(client.provide_data(&control(ControlMessage::Ack), 7, 8), Retention::Retain);
    assert_eq!(client.provide_data(&[0], 7, 8), Retention::Retain);

    // Outbound items flow to the transport, oldest first.
    let mut out = client_handle.packets_to_send.clone();
    out.increment_publishers(PublisherToken::new());
    assert!(out.push(vec![1]));
    assert!(out.push(vec![2]));
    let polled = client.poll();
    assert_eq!(polled.retention, Retention::Retain);
    assert_eq!(polled.outbound, vec![vec![1], vec![2]]);
    assert!(polled.control.is_none());
    assert!(client.poll().outbound.is_empty());

    // The server side has a channel but no publishers: kept.
    assert_eq!(server.poll().retention, Retention::Retain);
}

#[test]
fn connected_peer_without_channels_or_publishers_is_dropped() {
    let (mut server, handle) = Peer::new_server(3, 4);
    let NetworkPeer { packets_router, packets_to_send, quirk, .. } = handle;
    assert!(packets_router.send(Router::new()).is_ok());
    assert_eq!(server.poll().retention, Retention::Retain);
    assert_eq!(server.provide_data(&control(ControlMessage::Negotiate), 3, 4), Retention::Retain);
    assert_eq!(server.phase(), Phase::Connected);
    packets_to_send.increment_publishers(PublisherToken::new());
    assert_eq!(server.poll().retention, Retention::Retain);
    packets_to_send.decrement_publishers(PublisherToken::new());
    assert_eq!(server.poll().retention, Retention::Drop);
    drop(quirk);
}

#[test]
fn dead_channel_removed_then_peer_reaped() {
    let (mut server, handle) = Peer::new_server(3, 4);
    let (map, got, alive) = mapping(1);
    let NetworkPeer { packets_router, quirk, .. } = handle;
    assert!(packets_router.send(map).is_ok());
    server.poll();
    assert_eq!(server.provide_data(&control(ControlMessage::Negotiate), 3, 4), Retention::Retain);
    assert_eq!(server.phase(), Phase::Connected);
    alive.store(false, Ordering::SeqCst);
    assert_eq!(server.provide_data(&frame(vec![5], 1), 3, 4), Retention::Retain);
    assert!(got.lock().unwrap().is_empty());
    // No channels left and nobody publishes: the peer is done.
    assert_eq!(server.poll().retention, Retention::Drop);
    drop(quirk);
}

#[test]
fn client_handle_receiver_reports_pending_then_value() {
    let (mut client, mut handle_rx) = Peer::new_client();
    assert!(matches!(handle_rx.try_recv(), Err(TryRecvError::Empty)));
    client.provide_data(&control(ControlMessage::Negotiate), 11, 2);
    assert!(handle_rx.try_recv().is_ok());
}

#[test]
fn verdict_helpers() {
    assert_eq!(connected_verdict(true, 0), Retention::Drop);
    assert_eq!(connected_verdict(true, 1), Retention::Retain);
    assert_eq!(connected_verdict(false, 0), Retention::Retain);
    assert_eq!(connected_verdict(false, 3), Retention::Retain);
    assert_eq!(retain_when(true), Retention::Retain);
    assert_eq!(retain_when(false), Retention::Drop);
}

#[test]
fn advance_awaiting_on_each_take() {

    let client_req = || AwaitingNegotiationReq::ClientNegotiation {
        negotiation_recv: tokio::sync::oneshot::channel().1,
    };
    let (map, _, _) = mapping(4);
    let (next, out) = Peer::advance_awaiting(Subscriber::new(2), client_req(), TryTake::Ready(map));
    assert_eq!(next.phase(), Phase::Connected);
    assert_eq!(out.retention, Retention::Retain);
    assert_eq!(out.control, Some(control(ControlMessage::Negotiate)));
    let PeerStateMachine::Connected { packets_router, .. } = next else {
        panic!("client must be connected");
    };
    assert!(packets_router.contains_key(&4));

    let (next, out) = Peer::advance_awaiting(Subscriber::new(2), client_req(), TryTake::Pending);
    assert_eq!(next.phase(), Phase::ClientNegotiation);
    assert_eq!(out.retention, Retention::Retain);
    assert!(out.control.is_none());

    let (next, out) = Peer::advance_awaiting(Subscriber::new(2), client_req(), TryTake::Abandoned);
    assert_eq!(next.phase(), Phase::ClientNegotiation);
    assert_eq!(out.retention, Retention::Drop);
    assert!(out.control.is_none());

    let server_req = AwaitingNegotiationReq::ServerNegotiation {
        negotiation_recv: tokio::sync::oneshot::channel().1,
        client_negotiation_sender: tokio::sync::oneshot::channel().0,
    };
    let (map, _, _) = mapping(1);
    let (next, out) = Peer::advance_awaiting(Subscriber::new(2), server_req, TryTake::Ready(map));
    assert_eq!(next.phase(), Phase::ServerAwaitNegotiateResponse);
    assert_eq!(out.retention, Retention::Retain);
    assert_eq!(out.control, Some(control(ControlMessage::Negotiate)));
}

#[test]
fn echo_and_handle_helpers() {
    let (map, _, _) = mapping(2);
    let (next, r) = Peer::after_echo(Subscriber::new(1), map, true);
    assert_eq!((next.phase(), r), (Phase::Connected, Retention::Retain));
    let (map, _, _) = mapping(2);
    let (next, r) = Peer::after_echo(Subscriber::new(1), map, false);
    assert_eq!((next.phase(), r), (Phase::ServerAwaitNegotiateResponse, Retention::Drop));

    let sub = Subscriber::new(2);
    let (tx, _rx) = tokio::sync::oneshot::channel();
    let handle = Peer::client_handle(21, &sub, tx);
    assert_eq!(handle.remote_addr, 21);
    assert!(matches!(handle.quirk, PeerQuirk::ClientSide));
    let mut feed = handle.packets_to_send;
    assert!(feed.push(vec![8]));
    assert_eq!(sub.try_recv(), Some(vec![8]));

    let (next, r) = Peer::after_handle_sent(sub, tokio::sync::oneshot::channel().1, false);
    assert_eq!((next.phase(), r), (Phase::ClientNegotiation, Retention::Drop));
    let (next, r) =
        Peer::after_handle_sent(Subscriber::new(1), tokio::sync::oneshot::channel().1, true);
    assert_eq!((next.phase(), r), (Phase::ClientNegotiation, Retention::Retain));
}
