use zinnia::peer::address::{ConnectionId, Multiaddr, PeerId};
use zinnia::peer::behaviour::{
    AddressChange, BehaviourAction, ConnectedPoint, ConnectionClosed, ConnectionEstablished,
    DialFailure, FromSwarm, InboundFailure, OutboundFailure, RequestResponse,
    RequestResponseConfig, RequestResponseEvent, RequestResponseMessage,
    EMPTY_QUEUE_SHRINK_THRESHOLD,
};
use zinnia::peer::handler::{KeepAlive, RequestResponseHandlerEvent};
use zinnia::peer::protocol::ProtocolInfo;

fn peer(n: u8) -> PeerId {
    PeerId::from_bytes(vec![0, 1, n])
}

fn addr(port: u8) -> Multiaddr {
    Multiaddr::from_bytes(vec![4, 127, 0, 0, 1, 6, 0, port])
}

fn ping() -> Vec<ProtocolInfo> {
    vec![ProtocolInfo::from_slice(b"/ipfs/ping/1.0.0")]
}

fn behaviour() -> RequestResponse {
    RequestResponse::new(RequestResponseConfig { request_timeout: 1000, connection_keep_alive: 1000 })
}

fn establish(b: &mut RequestResponse, p: u8, conn: usize, other: usize) {
    b.on_connection_established(ConnectionEstablished {
        peer_id: peer(p),
        connection_id: ConnectionId(conn),
        endpoint: ConnectedPoint::Dialer { address: addr(p) },
        other_established: other,
    });
}

fn drain(b: &mut RequestResponse) -> Vec<BehaviourAction> {
    let mut actions = Vec::new();
    while let Some(action) = b.poll() {
        actions.push(action);
    }
    actions
}

#[test]
fn request_ids_start_at_one_and_count_up() {
    let mut b = behaviour();
    let first = b.send_request(&peer(1), &ping(), vec![1]);
    let second = b.send_request(&peer(1), &ping(), vec![2]);
    let third = b.send_request(&peer(2), &ping(), vec![3]);
    assert_eq!(first.value(), 1);
    assert_eq!(second.value(), 2);
    assert_eq!(third.value(), 3);
    assert_eq!(third.to_string(), "3");
}

#[test]
fn a_request_to_a_peer_without_connection_waits_and_asks_for_a_dial() {
    let mut b = behaviour();
    let id = b.send_request(&peer(1), &ping(), vec![7, 8]);
    assert!(!b.is_connected(&peer(1)));
    assert!(b.is_pending_outbound(&peer(1), &id));
    assert!(!b.is_pending_outbound(&peer(2), &id));
    let actions = drain(&mut b);
    assert_eq!(actions.len(), 1);
    match &actions[0] {
        BehaviourAction::Dial { peer: p } => assert!(p.same_as(&peer(1))),
        other => panic!("unexpected action {other:?}"),
    }
}

#[test]
fn the_first_connection_takes_the_requests_that_waited_in_their_order() {
    let mut b = behaviour();
    let first = b.send_request(&peer(1), &ping(), vec![1]);
    let second = b.send_request(&peer(1), &ping(), vec![2]);
    let _ = drain(&mut b);
    establish(&mut b, 1, 10, 0);
    assert!(b.is_connected(&peer(1)));
    assert!(b.is_pending_outbound(&peer(1), &first));
    assert!(b.is_pending_outbound(&peer(1), &second));
    let actions = drain(&mut b);
    assert_eq!(actions.len(), 2);
    let mut payloads = Vec::new();
    for action in actions {
        match action {
            BehaviourAction::NotifyHandler { peer: p, connection, event } => {
                assert!(p.same_as(&peer(1)));
                assert_eq!(connection, ConnectionId(10));
                let names = event.protocol_info();
                assert_eq!(names.len(), 1);
                assert_eq!(names[0].as_slice(), b"/ipfs/ping/1.0.0");
                payloads.push((event.request_id.value(), event.payload));
            }
            other => panic!("unexpected action {other:?}"),
        }
    }
    assert_eq!(payloads, vec![(1, vec![1]), (2, vec![2])]);
}

#[test]
fn a_later_connection_does_not_take_waiting_requests() {
    let mut b = behaviour();
    let id = b.send_request(&peer(1), &ping(), vec![1]);
    let _ = drain(&mut b);
    establish(&mut b, 1, 10, 1);
    assert!(drain(&mut b).is_empty());
    assert!(b.is_pending_outbound(&peer(1), &id));
}

#[test]
fn requests_are_spread_over_connections_by_id_modulo_count() {
    let mut b = behaviour();
    establish(&mut b, 1, 100, 0);
    establish(&mut b, 1, 200, 1);
    let mut chosen = Vec::new();
    for _ in 0..4 {
        let id = b.send_request(&peer(1), &ping(), vec![]);
        match b.poll() {
            Some(BehaviourAction::NotifyHandler { connection, event, .. }) => {
                assert_eq!(event.request_id, id);
                chosen.push((id.value(), connection));
            }
            other => panic!("unexpected action {other:?}"),
        }
    }
    // ids 1..4 modulo two connections: positions 1, 0, 1, 0
    assert_eq!(
        chosen,
        vec![
            (1, ConnectionId(200)),
            (2, ConnectionId(100)),
            (3, ConnectionId(200)),
            (4, ConnectionId(100)),
        ]
    );
}

#[test]
fn a_response_ends_the_wait_and_is_reported() {
    let mut b = behaviour();
    establish(&mut b, 1, 10, 0);
    let id = b.send_request(&peer(1), &ping(), vec![5]);
    let _ = drain(&mut b);
    b.on_connection_handler_event(
        peer(1),
        ConnectionId(10),
        RequestResponseHandlerEvent::Response { request_id: id, response: vec![5] },
    );
    assert!(!b.is_pending_outbound(&peer(1), &id));
    match b.poll() {
        Some(BehaviourAction::GenerateEvent(RequestResponseEvent::Message {
            peer: p,
            message: RequestResponseMessage::Response { request_id, response },
        })) => {
            assert!(p.same_as(&peer(1)));
            assert_eq!(request_id, id);
            assert_eq!(response, vec![5]);
        }
        other => panic!("unexpected action {other:?}"),
    }
    assert!(b.poll().is_none());
}

fn failure_of(action: Option<BehaviourAction>) -> (u64, OutboundFailure) {
    match action {
        Some(BehaviourAction::GenerateEvent(RequestResponseEvent::OutboundFailure {
            request_id,
            error,
            ..
        })) => (request_id.value(), error),
        other => panic!("unexpected action {other:?}"),
    }
}

#[test]
fn timeouts_and_unsupported_protocols_are_reported_once_each() {
    let mut b = behaviour();
    establish(&mut b, 1, 10, 0);
    let slow = b.send_request(&peer(1), &ping(), vec![]);
    let odd = b.send_request(&peer(1), &ping(), vec![]);
    let _ = drain(&mut b);
    b.on_connection_handler_event(
        peer(1),
        ConnectionId(10),
        RequestResponseHandlerEvent::OutboundTimeout(slow),
    );
    b.on_connection_handler_event(
        peer(1),
        ConnectionId(10),
        RequestResponseHandlerEvent::OutboundUnsupportedProtocols(odd),
    );
    assert_eq!(failure_of(b.poll()), (1, OutboundFailure::Timeout));
    assert_eq!(failure_of(b.poll()), (2, OutboundFailure::UnsupportedProtocols));
    assert!(b.poll().is_none());
    assert!(!b.is_pending_outbound(&peer(1), &slow));
    assert!(!b.is_pending_outbound(&peer(1), &odd));
    assert!(b.is_connected(&peer(1)));
}

#[test]
fn inbound_failures_are_reported() {
    let mut b = behaviour();
    b.on_connection_handler_event(
        peer(1),
        ConnectionId(10),
        RequestResponseHandlerEvent::InboundTimeout,
    );
    b.on_connection_handler_event(
        peer(1),
        ConnectionId(10),
        RequestResponseHandlerEvent::InboundUnsupportedProtocols,
    );
    let actions = drain(&mut b);
    assert_eq!(actions.len(), 2);
    match &actions[0] {
        BehaviourAction::GenerateEvent(RequestResponseEvent::InboundFailure { error, .. }) => {
            assert_eq!(*error, InboundFailure::Timeout)
        }
        other => panic!("unexpected action {other:?}"),
    }
    match &actions[1] {
        BehaviourAction::GenerateEvent(RequestResponseEvent::InboundFailure { error, .. }) => {
            assert_eq!(*error, InboundFailure::UnsupportedProtocols)
        }
        other => panic!("unexpected action {other:?}"),
    }
}

#[test]
fn closing_a_connection_fails_every_request_that_waited_on_it() {
    let mut b = behaviour();
    establish(&mut b, 1, 10, 0);
    let a = b.send_request(&peer(1), &ping(), vec![]);
    let c = b.send_request(&peer(1), &ping(), vec![]);
    let _ = drain(&mut b);
    b.on_connection_closed(ConnectionClosed {
        peer_id: peer(1),
        connection_id: ConnectionId(10),
        remaining_established: 0,
    });
    assert!(!b.is_connected(&peer(1)));
    let mut failed = vec![failure_of(b.poll()), failure_of(b.poll())];
    failed.sort_by_key(|f| f.0);
    assert_eq!(
        failed,
        vec![
            (a.value(), OutboundFailure::ConnectionClosed),
            (c.value(), OutboundFailure::ConnectionClosed),
        ]
    );
    assert!(b.poll().is_none());
    assert!(!b.is_pending_outbound(&peer(1), &a));
}

#[test]
fn closing_one_of_two_connections_keeps_the_peer_connected() {
    let mut b = behaviour();
    establish(&mut b, 1, 10, 0);
    establish(&mut b, 1, 11, 1);
    b.on_swarm_event(FromSwarm::ConnectionClosed(ConnectionClosed {
        peer_id: peer(1),
        connection_id: ConnectionId(10),
        remaining_established: 1,
    }));
    assert!(b.is_connected(&peer(1)));
    let id = b.send_request(&peer(1), &ping(), vec![]);
    match b.poll() {
        Some(BehaviourAction::NotifyHandler { connection, event, .. }) => {
            assert_eq!(connection, ConnectionId(11));
            assert_eq!(event.request_id, id);
        }
        other => panic!("unexpected action {other:?}"),
    }
}

#[test]
fn a_failed_dial_fails_the_requests_that_waited_and_none_is_sent() {
    let mut b = behaviour();
    let a = b.send_request(&peer(1), &ping(), vec![]);
    let c = b.send_request(&peer(1), &ping(), vec![]);
    let other = b.send_request(&peer(2), &ping(), vec![]);
    let _ = drain(&mut b);
    b.on_swarm_event(FromSwarm::DialFailure(DialFailure { peer_id: Some(peer(1)) }));
    assert_eq!(failure_of(b.poll()), (a.value(), OutboundFailure::DialFailure));
    assert_eq!(failure_of(b.poll()), (c.value(), OutboundFailure::DialFailure));
    assert!(b.poll().is_none());
    assert!(!b.is_pending_outbound(&peer(1), &a));
    assert!(b.is_pending_outbound(&peer(2), &other));
    // a connection that comes later finds nothing to send
    establish(&mut b, 1, 10, 0);
    assert!(b.poll().is_none());
}

#[test]
fn a_failed_dial_without_a_peer_changes_nothing() {
    let mut b = behaviour();
    let a = b.send_request(&peer(1), &ping(), vec![]);
    let _ = drain(&mut b);
    b.on_dial_failure(DialFailure { peer_id: None });
    b.on_dial_failure(DialFailure { peer_id: Some(peer(9)) });
    b.on_swarm_event(FromSwarm::Other);
    assert!(b.poll().is_none());
    assert!(b.is_pending_outbound(&peer(1), &a));
}

fn known(b: &RequestResponse, p: &PeerId) -> Vec<Vec<u8>> {
    b.handle_pending_outbound_connection(Some(p))
        .iter()
        .map(|a| a.to_bytes())
        .collect()
}

#[test]
fn addresses_are_added_and_removed_and_the_last_removal_drops_the_peer() {
    let mut b = behaviour();
    b.add_address(&peer(1), addr(1));
    b.add_address(&peer(1), addr(2));
    b.add_address(&peer(1), addr(1));
    b.add_address(&peer(2), addr(3));
    assert_eq!(known(&b, &peer(1)), vec![addr(1).to_bytes(), addr(2).to_bytes(), addr(1).to_bytes()]);
    b.remove_address(&peer(1), &addr(1));
    assert_eq!(known(&b, &peer(1)), vec![addr(2).to_bytes()]);
    b.remove_address(&peer(1), &addr(2));
    assert!(known(&b, &peer(1)).is_empty());
    b.remove_address(&peer(1), &addr(2));
    b.remove_address(&peer(7), &addr(2));
    assert_eq!(known(&b, &peer(2)), vec![addr(3).to_bytes()]);
    assert!(b.handle_pending_outbound_connection(None).is_empty());
}

#[test]
fn known_addresses_are_those_of_connections_and_then_those_added() {
    let mut b = behaviour();
    b.add_address(&peer(1), addr(9));
    establish(&mut b, 1, 10, 0);
    b.on_connection_established(ConnectionEstablished {
        peer_id: peer(1),
        connection_id: ConnectionId(11),
        endpoint: ConnectedPoint::Listener,
        other_established: 1,
    });
    assert_eq!(known(&b, &peer(1)), vec![addr(1).to_bytes(), addr(9).to_bytes()]);
    b.on_swarm_event(FromSwarm::AddressChange(AddressChange {
        peer_id: peer(1),
        connection_id: ConnectionId(11),
        new: ConnectedPoint::Dialer { address: addr(4) },
    }));
    assert_eq!(
        known(&b, &peer(1)),
        vec![addr(1).to_bytes(), addr(4).to_bytes(), addr(9).to_bytes()]
    );
    b.on_address_change(AddressChange {
        peer_id: peer(1),
        connection_id: ConnectionId(10),
        new: ConnectedPoint::Listener,
    });
    assert_eq!(known(&b, &peer(1)), vec![addr(4).to_bytes(), addr(9).to_bytes()]);
}

#[test]
fn failures_describe_themselves() {
    assert_eq!(OutboundFailure::DialFailure.to_string(), "Failed to dial the requested peer");
    assert_eq!(OutboundFailure::Timeout.to_string(), "Timeout while waiting for a response");
    assert_eq!(
        OutboundFailure::ConnectionClosed.to_string(),
        "Connection was closed before a response was received"
    );
    assert_eq!(
        OutboundFailure::UnsupportedProtocols.to_string(),
        "The remote supports none of the requested protocols"
    );
    assert_eq!(
        InboundFailure::Timeout.to_string(),
        "Timeout while receiving request or sending response"
    );
    assert_eq!(
        InboundFailure::UnsupportedProtocols.to_string(),
        "The local peer supports none of the protocols requested by the remote"
    );
}

#[test]
fn the_default_configuration_allows_ten_seconds() {
    let config = RequestResponseConfig::default();
    assert_eq!(config.request_timeout, 10_000);
    assert_eq!(config.connection_keep_alive, 10_000);
    assert_eq!(EMPTY_QUEUE_SHRINK_THRESHOLD, 100);
}

#[test]
fn a_new_handler_has_the_timeouts_of_the_behaviour() {
    let b = RequestResponse::new(RequestResponseConfig {
        request_timeout: 30,
        connection_keep_alive: 70,
    });
    assert_eq!(
        b.config(),
        RequestResponseConfig { request_timeout: 30, connection_keep_alive: 70 }
    );
    let mut handler = b.handle_established_outbound_connection();
    assert_eq!(handler.listen_protocol(), 30);
    assert_eq!(handler.connection_keep_alive(), KeepAlive::Yes);
    assert!(handler.poll(1000).is_none());
    assert_eq!(handler.connection_keep_alive(), KeepAlive::Until(1100));
}

#[test]
fn a_queue_that_grew_large_still_hands_out_everything_in_order() {
    let mut b = behaviour();
    for _ in 0..300 {
        b.send_request(&peer(1), &ping(), vec![]);
    }
    assert_eq!(drain(&mut b).len(), 300);
    assert!(b.poll().is_none());
    let id = b.send_request(&peer(1), &ping(), vec![]);
    assert_eq!(id.value(), 301);
    assert_eq!(drain(&mut b).len(), 1);
}
