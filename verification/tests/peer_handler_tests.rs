use zinnia::peer::behaviour::RequestId;
use zinnia::peer::address::PeerId;
use zinnia::peer::behaviour::{BehaviourAction, RequestResponse, RequestResponseConfig};
use zinnia::peer::handler::{
    ConnectionEvent, ConnectionHandlerEvent, KeepAlive, RequestResponseHandler,
    RequestResponseHandlerEvent, UpgradeError,
};
use zinnia::peer::protocol::{
    ExchangeAction, ExchangeError, ExchangeEvent, ExchangeStage, ProtocolInfo, ProtocolList,
    RequestProtocol, MAX_RESPONSE_SIZE,
};

fn request(payload: Vec<u8>) -> RequestProtocol {
    // a behaviour hands out request identifiers; take the first one
    let mut b = RequestResponse::new(RequestResponseConfig::default());
    let peer = PeerId::from_bytes(vec![0, 1, 1]);
    b.send_request(&peer, &[ProtocolInfo::from_slice(b"/zinnia/1")], payload);
    b.on_connection_established(zinnia::peer::behaviour::ConnectionEstablished {
        peer_id: peer,
        connection_id: zinnia::peer::address::ConnectionId(1),
        endpoint: zinnia::peer::behaviour::ConnectedPoint::Listener,
        other_established: 0,
    });
    let _dial = b.poll();
    match b.poll() {
        Some(BehaviourAction::NotifyHandler { event, .. }) => event,
        other => panic!("unexpected action {other:?}"),
    }
}

fn id_of(r: &RequestProtocol) -> RequestId {
    r.request_id
}

#[test]
fn a_handler_hands_requests_out_in_their_order_with_the_substream_timeout() {
    let mut handler = RequestResponseHandler::new(500, 200);
    handler.on_behaviour_event(request(vec![1]));
    handler.on_behaviour_event(request(vec![2]));
    let mut sent = Vec::new();
    while let Some(action) = handler.poll(0) {
        match action {
            ConnectionHandlerEvent::OutboundSubstreamRequest { protocol, info, timeout } => {
                assert_eq!(info, protocol.request_id);
                assert_eq!(timeout, 200);
                sent.push(protocol.payload);
            }
            other => panic!("unexpected action {other:?}"),
        }
    }
    assert_eq!(sent, vec![vec![1], vec![2]]);
}

#[test]
fn an_idle_connection_is_kept_for_both_timeouts_from_the_first_idle_poll() {
    let mut handler = RequestResponseHandler::new(500, 200);
    assert_eq!(handler.connection_keep_alive(), KeepAlive::Yes);
    assert!(KeepAlive::Yes.is_yes());
    assert!(!KeepAlive::No.is_yes());
    assert!(handler.poll(1_000).is_none());
    assert_eq!(handler.connection_keep_alive(), KeepAlive::Until(1_700));
    assert!(handler.poll(5_000).is_none());
    assert_eq!(handler.connection_keep_alive(), KeepAlive::Until(1_700));
    handler.on_behaviour_event(request(vec![]));
    assert_eq!(handler.connection_keep_alive(), KeepAlive::Yes);
    assert!(handler.poll(6_000).is_some());
    assert_eq!(handler.connection_keep_alive(), KeepAlive::Yes);
    assert!(handler.poll(u64::MAX).is_none());
    assert_eq!(
        handler.connection_keep_alive(),
        KeepAlive::Until(u64::MAX as u128 + 700)
    );
}

#[test]
fn a_response_is_told_to_the_behaviour_with_the_request_id() {
    let mut handler = RequestResponseHandler::new(500, 200);
    let r = request(vec![]);
    let id = id_of(&r);
    handler.on_connection_event(ConnectionEvent::FullyNegotiatedOutbound {
        response: vec![4, 2],
        info: id,
    });
    match handler.poll(0) {
        Some(ConnectionHandlerEvent::Custom(RequestResponseHandlerEvent::Response {
            request_id,
            response,
        })) => {
            assert_eq!(request_id, id);
            assert_eq!(response, vec![4, 2]);
        }
        other => panic!("unexpected action {other:?}"),
    }
}

#[test]
fn a_timeout_and_a_failed_negotiation_do_not_close_the_connection() {
    let mut handler = RequestResponseHandler::new(500, 200);
    let id = id_of(&request(vec![]));
    handler.on_connection_event(ConnectionEvent::DialUpgradeError {
        info: id,
        error: UpgradeError::Timeout,
    });
    handler.on_connection_event(ConnectionEvent::DialUpgradeError {
        info: id,
        error: UpgradeError::NegotiationFailed,
    });
    handler.on_connection_event(ConnectionEvent::AddressChange);
    match handler.poll(0) {
        Some(ConnectionHandlerEvent::Custom(RequestResponseHandlerEvent::OutboundTimeout(i))) => {
            assert_eq!(i, id)
        }
        other => panic!("unexpected action {other:?}"),
    }
    match handler.poll(0) {
        Some(ConnectionHandlerEvent::Custom(
            RequestResponseHandlerEvent::OutboundUnsupportedProtocols(i),
        )) => assert_eq!(i, id),
        other => panic!("unexpected action {other:?}"),
    }
    assert!(handler.poll(0).is_none());
}

#[test]
fn any_other_upgrade_error_closes_the_connection_before_anything_else() {
    let mut handler = RequestResponseHandler::new(500, 200);
    let id = id_of(&request(vec![]));
    handler.on_connection_event(ConnectionEvent::FullyNegotiatedOutbound {
        response: vec![],
        info: id,
    });
    handler.on_connection_event(ConnectionEvent::DialUpgradeError {
        info: id,
        error: UpgradeError::Other("broken pipe".to_string()),
    });
    match handler.poll(0) {
        Some(ConnectionHandlerEvent::Close(UpgradeError::Other(text))) => {
            assert_eq!(text, "broken pipe")
        }
        other => panic!("unexpected action {other:?}"),
    }
    assert!(matches!(
        handler.poll(0),
        Some(ConnectionHandlerEvent::Custom(RequestResponseHandlerEvent::Response { .. }))
    ));
}

#[test]
fn inbound_failures_are_told_to_the_behaviour() {
    let mut handler = RequestResponseHandler::new(500, 200);
    handler.on_connection_event(ConnectionEvent::ListenUpgradeError { error: UpgradeError::Timeout });
    handler.on_connection_event(ConnectionEvent::ListenUpgradeError {
        error: UpgradeError::NegotiationFailed,
    });
    assert!(matches!(
        handler.poll(0),
        Some(ConnectionHandlerEvent::Custom(RequestResponseHandlerEvent::InboundTimeout))
    ));
    assert!(matches!(
        handler.poll(0),
        Some(ConnectionHandlerEvent::Custom(
            RequestResponseHandlerEvent::InboundUnsupportedProtocols
        ))
    ));
}

#[test]
fn protocol_names_keep_their_bytes_and_their_order() {
    let short = ProtocolInfo::from_slice(b"/a");
    let long = ProtocolInfo::from_slice(b"/a/protocol/name/longer/than/sixteen/bytes");
    assert_eq!(short.as_slice(), b"/a");
    assert_eq!(long.as_slice(), b"/a/protocol/name/longer/than/sixteen/bytes");
    assert_eq!(long.duplicate().as_slice(), long.as_slice());
    assert_eq!(ProtocolInfo::from_slice(b"").as_slice(), b"");
    let list = ProtocolList::from_slice(&[long.duplicate(), short.duplicate(), long.duplicate()]);
    let names: Vec<Vec<u8>> = list.to_vec().iter().map(|p| p.as_slice().to_vec()).collect();
    assert_eq!(
        names,
        vec![long.as_slice().to_vec(), short.as_slice().to_vec(), long.as_slice().to_vec()]
    );
    assert!(ProtocolList::from_slice(&[]).to_vec().is_empty());
}

#[test]
fn an_exchange_writes_flushes_closes_and_reads_to_the_end() {
    let (mut exchange, first) = request(vec![9, 9, 9]).upgrade_outbound();
    assert_eq!(exchange.stage(), ExchangeStage::Writing);
    assert!(matches!(first, ExchangeAction::Write(ref bytes) if bytes == &vec![9, 9, 9]));
    assert!(matches!(exchange.advance(ExchangeEvent::Completed), ExchangeAction::Flush));
    assert!(matches!(exchange.advance(ExchangeEvent::Completed), ExchangeAction::Close));
    match exchange.advance(ExchangeEvent::Completed) {
        ExchangeAction::Read { at_most } => assert_eq!(at_most, 10 * 1024 * 1024),
        other => panic!("unexpected action {other:?}"),
    }
    match exchange.advance(ExchangeEvent::Data(vec![1, 2])) {
        ExchangeAction::Read { at_most } => assert_eq!(at_most, 10 * 1024 * 1024 - 2),
        other => panic!("unexpected action {other:?}"),
    }
    assert!(matches!(
        exchange.advance(ExchangeEvent::Data(vec![3])),
        ExchangeAction::Read { .. }
    ));
    match exchange.advance(ExchangeEvent::EndOfStream) {
        ExchangeAction::Succeed(response) => assert_eq!(response, vec![1, 2, 3]),
        other => panic!("unexpected action {other:?}"),
    }
    assert_eq!(exchange.stage(), ExchangeStage::Done);
    assert!(matches!(
        exchange.advance(ExchangeEvent::EndOfStream),
        ExchangeAction::Fail(ExchangeError::OutOfOrder)
    ));
}

#[test]
fn a_read_without_bytes_ends_the_response() {
    let (mut exchange, _) = request(vec![]).upgrade_outbound();
    exchange.advance(ExchangeEvent::Completed);
    exchange.advance(ExchangeEvent::Completed);
    exchange.advance(ExchangeEvent::Completed);
    exchange.advance(ExchangeEvent::Data(vec![7]));
    match exchange.advance(ExchangeEvent::Data(vec![])) {
        ExchangeAction::Succeed(response) => assert_eq!(response, vec![7]),
        other => panic!("unexpected action {other:?}"),
    }
}

#[test]
fn a_response_is_cut_at_ten_mebibytes() {
    assert_eq!(MAX_RESPONSE_SIZE, 10_485_760);
    let (mut exchange, _) = request(vec![]).upgrade_outbound();
    exchange.advance(ExchangeEvent::Completed);
    exchange.advance(ExchangeEvent::Completed);
    exchange.advance(ExchangeEvent::Completed);
    let chunk = vec![1u8; MAX_RESPONSE_SIZE - 1];
    assert!(matches!(
        exchange.advance(ExchangeEvent::Data(chunk)),
        ExchangeAction::Read { at_most: 1 }
    ));
    match exchange.advance(ExchangeEvent::Data(vec![2, 3, 4])) {
        ExchangeAction::Succeed(response) => {
            assert_eq!(response.len(), MAX_RESPONSE_SIZE);
            assert_eq!(response[MAX_RESPONSE_SIZE - 1], 2);
            assert_eq!(response[MAX_RESPONSE_SIZE - 2], 1);
        }
        other => panic!("unexpected action {other:?}"),
    }
}

#[test]
fn a_failure_at_any_stage_ends_the_exchange() {
    for completed in 0..4 {
        let (mut exchange, _) = request(vec![]).upgrade_outbound();
        for _ in 0..completed {
            exchange.advance(ExchangeEvent::Completed);
        }
        match exchange.advance(ExchangeEvent::Failed("reset".to_string())) {
            ExchangeAction::Fail(ExchangeError::Io(text)) => assert_eq!(text, "reset"),
            other => panic!("unexpected action {other:?}"),
        }
        assert_eq!(exchange.stage(), ExchangeStage::Done);
    }
}

#[test]
fn an_event_out_of_order_ends_the_exchange() {
    let (mut exchange, _) = request(vec![]).upgrade_outbound();
    assert!(matches!(
        exchange.advance(ExchangeEvent::Data(vec![1])),
        ExchangeAction::Fail(ExchangeError::OutOfOrder)
    ));
    assert_eq!(exchange.stage(), ExchangeStage::Done);
    let (mut exchange, _) = request(vec![]).upgrade_outbound();
    exchange.advance(ExchangeEvent::Completed);
    exchange.advance(ExchangeEvent::Completed);
    exchange.advance(ExchangeEvent::Completed);
    assert!(matches!(
        exchange.advance(ExchangeEvent::Completed),
        ExchangeAction::Fail(ExchangeError::OutOfOrder)
    ));
}
