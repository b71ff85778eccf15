use zinnia::peer::address::{ConnectionId, Multiaddr, PeerId};
use zinnia::peer::behaviour::{
    BehaviourAction, ConnectedPoint, ConnectionEstablished, DialFailure, FromSwarm,
    OutboundFailure, RequestResponse, RequestResponseConfig, RequestResponseEvent,
};
use zinnia::peer::config::{version, PeerNodeConfig};
use zinnia::peer::event_loop::{
    Command, DialError, EventLoop, LoopAction, LoopInput, PendingRequest, SwarmEvent,
};
use zinnia::peer::handler::{
    ConnectionEvent, ConnectionHandlerEvent, RequestResponseHandler, RequestResponseHandlerEvent,
};
use zinnia::peer::node::{CallError, CallEvent, CallStep, PeerNode};
use zinnia::peer::protocol::{ExchangeAction, ExchangeEvent, ProtocolInfo};
use zinnia::peer::Options;

const LISTENER: &str = "12D3KooWRH71QRJe5vrMp6zZXoH4K7z5MDSWwTXXPriG9dK8HQXk";

const DEFAULT_TEST_CONFIG: RequestResponseConfig =
    RequestResponseConfig { connection_keep_alive: 1000, request_timeout: 1000 };

type Loop = EventLoop<u32, u32>;
type Action = LoopAction<u32, u32, String>;

fn listener() -> PeerId {
    let parsed: libp2p::PeerId = LISTENER.parse().unwrap();
    PeerId::from_bytes(parsed.to_bytes())
}

fn local() -> PeerId {
    PeerId::from_bytes(libp2p::PeerId::random().to_bytes())
}

/// Plays the part of a peer that answers every request with its payload.
fn echo(handler: &mut RequestResponseHandler) -> Vec<RequestResponseHandlerEvent> {
    let mut told = Vec::new();
    while let Some(action) = handler.poll(0) {
        match action {
            ConnectionHandlerEvent::OutboundSubstreamRequest { protocol, info, .. } => {
                let (mut exchange, first) = protocol.upgrade_outbound();
                let sent = match first {
                    ExchangeAction::Write(bytes) => bytes,
                    other => panic!("unexpected action {other:?}"),
                };
                assert!(matches!(exchange.advance(ExchangeEvent::Completed), ExchangeAction::Flush));
                assert!(matches!(exchange.advance(ExchangeEvent::Completed), ExchangeAction::Close));
                assert!(matches!(
                    exchange.advance(ExchangeEvent::Completed),
                    ExchangeAction::Read { .. }
                ));
                assert!(matches!(
                    exchange.advance(ExchangeEvent::Data(sent)),
                    ExchangeAction::Read { .. }
                ));
                match exchange.advance(ExchangeEvent::EndOfStream) {
                    ExchangeAction::Succeed(response) => handler.on_connection_event(
                        ConnectionEvent::FullyNegotiatedOutbound { response, info },
                    ),
                    other => panic!("unexpected action {other:?}"),
                }
            }
            ConnectionHandlerEvent::Custom(event) => told.push(event),
            other => panic!("unexpected action {other:?}"),
        }
    }
    told
}

#[test]
fn requests_ping_protocol() {
    let listener_peer_id = listener();
    let listener_addr = Multiaddr::parse("/ip4/127.0.0.1/tcp/10458").unwrap();
    let (mut peer, mut behaviour) = PeerNode::spawn(DEFAULT_TEST_CONFIG, local());
    let mut event_loop = Loop::new();

    // dial the listener
    let action: Action = event_loop.run(
        &mut behaviour,
        LoopInput::Command(Some(Command::Dial {
            peer_id: listener_peer_id.duplicate(),
            peer_addr: listener_addr.duplicate(),
            sender: 1,
        })),
        false,
    );
    let dialed = match action {
        LoopAction::Dial { peer_id, address, sender } => {
            assert!(peer_id.same_as(&listener_peer_id));
            assert_eq!(sender, 1);
            address
        }
        other => panic!("unexpected action {other:?}"),
    };
    assert_eq!(
        dialed.to_bytes(),
        Multiaddr::parse(&format!("/ip4/127.0.0.1/tcp/10458/p2p/{LISTENER}")).unwrap().to_bytes()
    );
    let action: Action = event_loop.on_dial_started(listener_peer_id.duplicate(), 1, Ok(()));
    assert!(matches!(action, LoopAction::Nothing));

    // the connection stands
    behaviour.on_swarm_event(FromSwarm::ConnectionEstablished(ConnectionEstablished {
        peer_id: listener_peer_id.duplicate(),
        connection_id: ConnectionId(1),
        endpoint: ConnectedPoint::Dialer { address: dialed.duplicate() },
        other_established: 0,
    }));
    let mut handler = behaviour.handle_established_outbound_connection();
    let action: Action = event_loop.run(
        &mut behaviour,
        LoopInput::Event(SwarmEvent::ConnectionEstablished {
            peer_id: listener_peer_id.duplicate(),
            endpoint: ConnectedPoint::Dialer { address: dialed },
        }),
        true,
    );
    match action {
        LoopAction::ReplyDial { sender, result } => {
            assert_eq!(sender, 1);
            assert!(result.is_ok(), "Should be able to dial a remote peer.");
        }
        other => panic!("unexpected action {other:?}"),
    }

    // request the ping protocol
    let request: Vec<u8> = (0..32).collect();
    let (mut call, step) = peer.request_protocol::<String>(
        listener_peer_id.duplicate(),
        listener_addr.duplicate(),
        b"/ipfs/ping/1.0.0",
        request.clone(),
    );
    let (peer_id, peer_addr) = match step {
        CallStep::Dial { peer_id, peer_addr } => (peer_id, peer_addr),
        other => panic!("unexpected step {other:?}"),
    };
    let action: Action = event_loop.run(
        &mut behaviour,
        LoopInput::Command(Some(Command::Dial { peer_id, peer_addr, sender: 2 })),
        true,
    );
    let dial_result = match action {
        LoopAction::ReplyDial { sender: 2, result } => result,
        other => panic!("unexpected action {other:?}"),
    };
    let (peer_id, protocol, payload) = match call.advance(CallEvent::DialSettled(dial_result)) {
        CallStep::Request { peer_id, protocol, payload } => (peer_id, protocol, payload),
        other => panic!("unexpected step {other:?}"),
    };
    assert_eq!(protocol.as_slice(), b"/ipfs/ping/1.0.0");
    let action: Action = event_loop.run(
        &mut behaviour,
        LoopInput::Command(Some(Command::Request { peer_id, protocol, payload, sender: 3 })),
        true,
    );
    assert!(matches!(action, LoopAction::Nothing));

    // the swarm hands the request to the handler, the listener echoes it
    match behaviour.poll() {
        Some(BehaviourAction::NotifyHandler { connection, event, .. }) => {
            assert_eq!(connection, ConnectionId(1));
            handler.on_behaviour_event(event);
        }
        other => panic!("unexpected action {other:?}"),
    }
    for event in echo(&mut handler) {
        behaviour.on_connection_handler_event(listener_peer_id.duplicate(), ConnectionId(1), event);
    }
    let event = match behaviour.poll() {
        Some(BehaviourAction::GenerateEvent(event)) => event,
        other => panic!("unexpected action {other:?}"),
    };
    let action: Action =
        event_loop.run(&mut behaviour, LoopInput::Event(SwarmEvent::Behaviour(event)), true);
    let outcome = match action {
        LoopAction::ReplyRequest { sender: 3, result } => result,
        other => panic!("unexpected action {other:?}"),
    };
    let response = match call.advance::<String>(CallEvent::RequestSettled(outcome)) {
        CallStep::Done(result) => result.expect("Should be able to send PING request"),
        other => panic!("unexpected step {other:?}"),
    };
    assert_eq!(response, request, "PING response should match the request");

    // shut down
    let action: Action =
        event_loop.run(&mut behaviour, LoopInput::Command(Some(Command::Shutdown)), false);
    assert!(matches!(action, LoopAction::CloseCommands));
    let action: Action = event_loop.run(&mut behaviour, LoopInput::Command(None), false);
    assert!(matches!(action, LoopAction::Stop));
    assert!(peer.shutdown());
    assert!(!peer.shutdown());
}

#[test]
fn reports_dial_error() {
    // invalid address (port number 10) with a valid peer id
    let unreachable_addr = "/ip4/127.0.0.1/tcp/10/p2p/12D3KooWRH71QRJe5vrMp6zZXoH4K7z5MDSWwTXXPriG9dK8HQXk";
    let (peer_addr, peer_id) = Multiaddr::parse(unreachable_addr)
        .expect("should be able to parse our hard-coded multiaddr")
        .split_last()
        .unwrap();
    let peer_id = peer_id.expect("The peer multiaddr should contain peer ID.");

    let (mut peer, mut behaviour) = PeerNode::spawn(DEFAULT_TEST_CONFIG, local());
    let mut event_loop = Loop::new();
    let action: Action = event_loop.handle_command(
        &mut behaviour,
        Command::Dial { peer_id: peer_id.duplicate(), peer_addr, sender: 1 },
        false,
    );
    let (dialed, sender) = match action {
        LoopAction::Dial { address, sender, .. } => (address, sender),
        other => panic!("unexpected action {other:?}"),
    };
    // the address that is dialed is the address that was given
    assert_eq!(dialed.to_bytes(), Multiaddr::parse(unreachable_addr).unwrap().to_bytes());
    let action: Action = event_loop.on_dial_started(peer_id.duplicate(), sender, Ok(()));
    assert!(matches!(action, LoopAction::Nothing));

    // the transport reports that the connection was refused
    let refused = format!("{unreachable_addr}: Connection refused");
    let action: Action = event_loop.handle_event(SwarmEvent::OutgoingConnectionError {
        peer_id: Some(peer_id.duplicate()),
        error: refused.clone(),
    });
    let result = match action {
        LoopAction::ReplyDial { sender: 1, result } => result,
        other => panic!("unexpected action {other:?}"),
    };
    match result.expect_err("Dial should have failed with an error") {
        DialError::Swarm(err) => assert_eq!(err, refused),
        other => panic!("Unexpected DialError: {other:?}"),
    }
    assert!(peer.shutdown());
}

#[test]
fn a_request_is_not_sent_when_the_dial_fails() {
    let (peer, _behaviour) = PeerNode::spawn(DEFAULT_TEST_CONFIG, local());
    let addr = Multiaddr::parse("/ip4/127.0.0.1/tcp/10").unwrap();
    let (mut call, first) = peer.request_protocol::<String>(listener(), addr, b"/x", vec![1]);
    assert!(matches!(first, CallStep::Dial { .. }));
    let step = call.advance(CallEvent::DialSettled(Err(DialError::Swarm("refused".to_string()))));
    match step {
        CallStep::Done(Err(CallError::Dial(DialError::Swarm(text)))) => assert_eq!(text, "refused"),
        other => panic!("unexpected step {other:?}"),
    }
    // whatever comes later, the call sends nothing
    assert!(matches!(
        call.advance::<String>(CallEvent::DialSettled(Ok(()))),
        CallStep::Done(Err(CallError::OutOfOrder))
    ));
    assert!(matches!(
        call.advance::<String>(CallEvent::RequestSettled(Ok(vec![]))),
        CallStep::Done(Err(CallError::OutOfOrder))
    ));
}

#[test]
fn a_request_that_fails_returns_its_failure() {
    let (peer, _behaviour) = PeerNode::spawn(DEFAULT_TEST_CONFIG, local());
    let addr = Multiaddr::parse("/ip4/127.0.0.1/tcp/10").unwrap();
    let (mut call, _) = peer.request_protocol::<String>(listener(), addr, b"/x", vec![1]);
    assert!(matches!(call.advance::<String>(CallEvent::DialSettled(Ok(()))), CallStep::Request { .. }));
    assert!(matches!(
        call.advance::<String>(CallEvent::RequestSettled(Err(OutboundFailure::Timeout))),
        CallStep::Done(Err(CallError::Request(OutboundFailure::Timeout)))
    ));
}

#[test]
fn a_response_before_the_dial_is_out_of_order() {
    let (peer, _behaviour) = PeerNode::spawn(DEFAULT_TEST_CONFIG, local());
    let addr = Multiaddr::parse("/ip4/127.0.0.1/tcp/10").unwrap();
    let (mut call, _) = peer.request_protocol::<String>(listener(), addr, b"/x", vec![1]);
    assert!(matches!(
        call.advance::<String>(CallEvent::RequestSettled(Ok(vec![1]))),
        CallStep::Done(Err(CallError::OutOfOrder))
    ));
}

#[test]
fn a_dial_that_the_swarm_refuses_is_answered_at_once() {
    let mut event_loop = Loop::new();
    let action: Action = event_loop.on_dial_started(listener(), 5, Err("no transport".to_string()));
    match action {
        LoopAction::ReplyDial { sender: 5, result: Err(DialError::Swarm(text)) } => {
            assert_eq!(text, "no transport")
        }
        other => panic!("unexpected action {other:?}"),
    }
    // no dial is in flight: a failed connection is not answered again
    let action: Action = event_loop.handle_event(SwarmEvent::OutgoingConnectionError {
        peer_id: Some(listener()),
        error: "late".to_string(),
    });
    assert!(matches!(action, LoopAction::Nothing));
}

#[test]
fn a_dial_with_bytes_that_are_no_address_is_refused() {
    let mut behaviour = RequestResponse::new(DEFAULT_TEST_CONFIG);
    let mut event_loop = Loop::new();
    let action: Action = event_loop.handle_dial(
        &mut behaviour,
        listener(),
        Multiaddr::from_bytes(vec![4, 1]),
        8,
        false,
    );
    assert!(matches!(
        action,
        LoopAction::ReplyDial { sender: 8, result: Err(DialError::InvalidAddress) }
    ));
}

#[test]
fn the_address_of_a_dial_is_remembered_for_the_peer() {
    let mut behaviour = RequestResponse::new(DEFAULT_TEST_CONFIG);
    let mut event_loop = Loop::new();
    let addr = Multiaddr::parse("/ip4/127.0.0.1/tcp/10").unwrap();
    let _: Action = event_loop.handle_dial(&mut behaviour, listener(), addr.duplicate(), 1, false);
    let known = behaviour.handle_pending_outbound_connection(Some(&listener()));
    assert_eq!(known.len(), 1);
    assert!(known[0].same_as(&addr));
}

#[test]
fn events_that_settle_nothing_change_nothing() {
    let mut event_loop = Loop::new();
    let action: Action = event_loop.handle_event(SwarmEvent::Other);
    assert!(matches!(action, LoopAction::Nothing));
    let action: Action = event_loop.handle_event(SwarmEvent::ConnectionEstablished {
        peer_id: listener(),
        endpoint: ConnectedPoint::Listener,
    });
    assert!(matches!(action, LoopAction::Nothing));
    let action: Action = event_loop.handle_event(SwarmEvent::OutgoingConnectionError {
        peer_id: None,
        error: "unknown peer".to_string(),
    });
    assert!(matches!(action, LoopAction::Nothing));
    let action: Action = event_loop.handle_event(SwarmEvent::Behaviour(
        RequestResponseEvent::InboundFailure {
            peer: listener(),
            error: zinnia::peer::behaviour::InboundFailure::Timeout,
        },
    ));
    assert!(matches!(action, LoopAction::Nothing));
}

#[test]
fn a_failed_dial_reaches_the_caller_of_a_waiting_request() {
    let mut behaviour = RequestResponse::new(DEFAULT_TEST_CONFIG);
    let mut event_loop = Loop::new();
    let id = event_loop.handle_request(
        &mut behaviour,
        listener(),
        ProtocolInfo::from_slice(b"/x"),
        vec![1],
        77,
    );
    assert_eq!(id.value(), 1);
    assert!(matches!(behaviour.poll(), Some(BehaviourAction::Dial { .. })));
    behaviour.on_swarm_event(FromSwarm::DialFailure(DialFailure { peer_id: Some(listener()) }));
    let event = match behaviour.poll() {
        Some(BehaviourAction::GenerateEvent(event)) => event,
        other => panic!("unexpected action {other:?}"),
    };
    let action: Action = event_loop.handle_event(SwarmEvent::Behaviour(event));
    assert!(matches!(
        action,
        LoopAction::ReplyRequest { sender: 77, result: Err(OutboundFailure::DialFailure) }
    ));
}

#[test]
fn a_new_request_never_takes_the_place_of_one_that_is_awaited() {
    let mut behaviour = RequestResponse::new(DEFAULT_TEST_CONFIG);
    let mut event_loop = Loop::new();
    assert!(event_loop.awaits_only_below(&behaviour.upcoming_request_id()));
    let mut ids = Vec::new();
    for sender in 0..3 {
        let next = behaviour.upcoming_request_id();
        assert!(!event_loop.has_pending_request(&next));
        let id = event_loop.handle_request(
            &mut behaviour,
            listener(),
            ProtocolInfo::from_slice(b"/x"),
            vec![],
            sender,
        );
        assert_eq!(id, next);
        assert!(event_loop.has_pending_request(&id));
        assert!(event_loop.awaits_only_below(&behaviour.upcoming_request_id()));
        assert!(!event_loop.awaits_only_below(&id));
        ids.push(id);
    }
    assert_eq!(ids.iter().map(|id| id.value()).collect::<Vec<_>>(), vec![1, 2, 3]);
    assert!(!event_loop.awaits_only_below(&ids[2]));
    assert!(!event_loop.awaits_only_below(&ids[0]));
}

#[test]
fn a_pending_request_holds_its_reply_channel() {
    let pending = PendingRequest { sender: "reply" };
    assert_eq!(pending.sender, "reply");
}

#[test]
fn the_default_node_configuration() {
    let config = PeerNodeConfig::default();
    assert_eq!(config.agent_version, format!("zinnia-libp2p/{}", version()));
    assert_eq!(PeerNodeConfig::default_agent_version(), "zinnia-libp2p/0.1.0");
    assert_eq!(
        config.request_response_config(),
        RequestResponseConfig { request_timeout: 10_000, connection_keep_alive: 10_000 }
    );
    assert_eq!(
        format!("{:?}", config.ping_config()),
        format!("{:?}", libp2p::ping::Config::new())
    );
    let id = config.id_config();
    assert_eq!(id.protocol_version, "ipfs/1.0.0");
    assert_eq!(id.agent_version, config.agent_version);
    assert_eq!(Options::default().default_peer.request_timeout, 10_000);
}

#[test]
fn the_ping_configuration_is_the_one_that_was_set() {
    let mut config = PeerNodeConfig::default();
    config.ping = libp2p::ping::Config::new()
        .with_timeout(std::time::Duration::from_secs(3))
        .with_interval(std::time::Duration::from_secs(7));
    let ping = config.ping_config();
    assert_eq!(format!("{ping:?}"), format!("{:?}", config.ping));
    assert_ne!(format!("{ping:?}"), format!("{:?}", libp2p::ping::Config::new()));
    assert!(format!("{ping:?}").contains("timeout: 3s"));
    assert!(format!("{ping:?}").contains("interval: 7s"));
}

#[test]
fn a_node_keeps_the_identity_it_was_spawned_with() {
    let id = local();
    let (peer, behaviour) = PeerNode::spawn(DEFAULT_TEST_CONFIG, id.duplicate());
    assert!(peer.peer_id().same_as(&id));
    assert_eq!(behaviour.config(), DEFAULT_TEST_CONFIG);
}
