//! The go-between of one connection: it turns the requests of the behaviour
//! substreams of the transport.

use crate::peer::behaviour::{queue_capacity, queue_shrink, RequestId, EMPTY_QUEUE_SHRINK_THRESHOLD};
use crate::peer::protocol::{RequestProtocol, RequestView, ResponsePayload};
use std::collections::VecDeque;
use vstd::prelude::*;

verus! {

/// What a connection handler tells the behaviour.
#[derive(Debug)]
pub enum RequestResponseHandlerEvent {
    /// A response has been received.
    Response { request_id: RequestId, response: ResponsePayload },
    /// An outbound request timed out while it was sent or while the response
    /// was awaited.
    OutboundTimeout(RequestId),
    /// No protocol offered for an outbound request is supported by the peer.
    OutboundUnsupportedProtocols(RequestId),
    /// An inbound request timed out.
    InboundTimeout,
    /// No protocol asked for by an inbound request is supported here.
    InboundUnsupportedProtocols,
}

/// A handler event, apart from how it is stored.
pub enum HandlerEventView {
    Response { request_id: u64, response: Seq<u8> },
    OutboundTimeout(u64),
    OutboundUnsupportedProtocols(u64),
    InboundTimeout,
    InboundUnsupportedProtocols,
}

impl View for RequestResponseHandlerEvent {
    type V = HandlerEventView;

    open spec fn view(&self) -> HandlerEventView {
        match self {
            RequestResponseHandlerEvent::Response { request_id, response } => HandlerEventView::Response {
                request_id: request_id@,
                response: response@,
            },
            RequestResponseHandlerEvent::OutboundTimeout(id) => HandlerEventView::OutboundTimeout(id@),
            RequestResponseHandlerEvent::OutboundUnsupportedProtocols(id) => HandlerEventView::OutboundUnsupportedProtocols(
                id@,
            ),
            RequestResponseHandlerEvent::InboundTimeout => HandlerEventView::InboundTimeout,
            RequestResponseHandlerEvent::InboundUnsupportedProtocols => HandlerEventView::InboundUnsupportedProtocols,
        }
    }
}

/// How long a connection is kept open.
#[derive(Clone, Copy, Debug, PartialEq, Eq, Structural)]
pub enum KeepAlive {
    /// As long as nothing else closes it.
    Yes,
    /// Until the clock shows this many milliseconds.
    Until(u128),
    /// Not at all.
    No,
}

impl KeepAlive {
    /// Whether the connection is kept open without a limit.
    pub fn is_yes(&self) -> (yes: bool)
        ensures
            yes == (*self == KeepAlive::Yes),
    {
        match self {
            KeepAlive::Yes => true,
            _ => false,
        }
    }
}

/// Why a substream could not be set up.
#[derive(Debug)]
pub enum UpgradeError {
    /// Negotiation took longer than the substream timeout.
    Timeout,
    /// The other side supports none of the protocols that were offered.
    NegotiationFailed,
    /// Anything else, with its description.
    Other(String),
}

/// An upgrade error, apart from how it is stored.
pub enum UpgradeErrorView {
    Timeout,
    NegotiationFailed,
    Other(Seq<char>),
}

impl View for UpgradeError {
    type V = UpgradeErrorView;

    open spec fn view(&self) -> UpgradeErrorView {
        match self {
            UpgradeError::Timeout => UpgradeErrorView::Timeout,
            UpgradeError::NegotiationFailed => UpgradeErrorView::NegotiationFailed,
            UpgradeError::Other(msg) => UpgradeErrorView::Other(msg@),
        }
    }
}

/// What happened on the connection.
#[derive(Debug)]
pub enum ConnectionEvent {
    /// An inbound substream was negotiated. The node accepts none.
    FullyNegotiatedInbound,
    /// The exchange for the request `info` ended with `response`.
    FullyNegotiatedOutbound { response: ResponsePayload, info: RequestId },
    /// The substream for the request `info` could not be set up.
    DialUpgradeError { info: RequestId, error: UpgradeError },
    /// An inbound substream could not be set up.
    ListenUpgradeError { error: UpgradeError },
    /// The address of the peer changed.
    AddressChange,
}

/// A connection event, apart from how it is stored.
pub enum ConnectionEventView {
    FullyNegotiatedInbound,
    FullyNegotiatedOutbound { response: Seq<u8>, info: u64 },
    DialUpgradeError { info: u64, error: UpgradeErrorView },
    ListenUpgradeError { error: UpgradeErrorView },
    AddressChange,
}

impl View for ConnectionEvent {
    type V = ConnectionEventView;

    open spec fn view(&self) -> ConnectionEventView {
        match self {
            ConnectionEvent::FullyNegotiatedInbound => ConnectionEventView::FullyNegotiatedInbound,
            ConnectionEvent::FullyNegotiatedOutbound { response, info } => ConnectionEventView::FullyNegotiatedOutbound {
                response: response@,
                info: info@,
            },
            ConnectionEvent::DialUpgradeError { info, error } => ConnectionEventView::DialUpgradeError {
                info: info@,
                error: error@,
            },
            ConnectionEvent::ListenUpgradeError { error } => ConnectionEventView::ListenUpgradeError {
                error: error@,
            },
            ConnectionEvent::AddressChange => ConnectionEventView::AddressChange,
        }
    }
}

/// What the handler asks of the connection.
#[derive(Debug)]
pub enum ConnectionHandlerEvent {
    /// Close the connection because of this error.
    Close(UpgradeError),
    /// Hand this event to the behaviour.
    Custom(RequestResponseHandlerEvent),
    /// Open an outbound substream for `protocol`, allowing `timeout`
    /// milliseconds for it. `info` comes back with the outcome.
    OutboundSubstreamRequest { protocol: RequestProtocol, info: RequestId, timeout: u64 },
}

/// A request of the handler, apart from how it is stored.
pub enum HandlerActionView {
    Close(UpgradeErrorView),
    Custom(HandlerEventView),
    OutboundSubstreamRequest { protocol: RequestView, info: u64, timeout: u64 },
}

impl View for ConnectionHandlerEvent {
    type V = HandlerActionView;

    open spec fn view(&self) -> HandlerActionView {
        match self {
            ConnectionHandlerEvent::Close(error) => HandlerActionView::Close(error@),
            ConnectionHandlerEvent::Custom(event) => HandlerActionView::Custom(event@),
            ConnectionHandlerEvent::OutboundSubstreamRequest { protocol, info, timeout } => HandlerActionView::OutboundSubstreamRequest {
                protocol: protocol@,
                info: info@,
                timeout: *timeout,
            },
        }
    }
}

/// The view of an optional action.
pub open spec fn opt_action(action: Option<ConnectionHandlerEvent>) -> Option<HandlerActionView> {
    match action {
        Some(a) => Some(a@),
        None => None,
    }
}

/// The state of a handler, apart from how it is stored.
pub struct HandlerState {
    /// How long an idle connection is kept open, in milliseconds.
    pub keep_alive_timeout: u64,
    /// How long a substream may take, in milliseconds.
    pub substream_timeout: u64,
    /// How long the connection is kept open as things stand.
    pub keep_alive: KeepAlive,
    /// An error that closes the connection at the next poll.
    pub pending_error: Option<UpgradeErrorView>,
    /// The events that wait to be handed to the behaviour, oldest first.
    pub pending_events: Seq<HandlerEventView>,
    /// The requests that wait for a substream, oldest first.
    pub outbound: Seq<RequestView>,
}

impl HandlerState {
    /// The state after the behaviour handed over `request`.
    pub open spec fn behaviour_event(self, request: RequestView) -> HandlerState {
        HandlerState { keep_alive: KeepAlive::Yes, outbound: self.outbound.push(request), ..self }
    }

    /// The state with one more event for the behaviour.
    pub open spec fn emit(self, event: HandlerEventView) -> HandlerState {
        HandlerState { pending_events: self.pending_events.push(event), ..self }
    }

    /// The state after the substream of the request `info` could not be set
    /// up. A timeout and a failed negotiation are told to the behaviour; any
    /// other error closes the connection.
    pub open spec fn dial_upgrade_error(self, info: u64, error: UpgradeErrorView) -> HandlerState {
        match error {
            UpgradeErrorView::Timeout => self.emit(HandlerEventView::OutboundTimeout(info)),
            UpgradeErrorView::NegotiationFailed => self.emit(
                HandlerEventView::OutboundUnsupportedProtocols(info),
            ),
            UpgradeErrorView::Other(_) => HandlerState { pending_error: Some(error), ..self },
        }
    }

    /// The state after an inbound substream could not be set up.
    pub open spec fn listen_upgrade_error(self, error: UpgradeErrorView) -> HandlerState {
        match error {
            UpgradeErrorView::Timeout => self.emit(HandlerEventView::InboundTimeout),
            _ => self.emit(HandlerEventView::InboundUnsupportedProtocols),
        }
    }

    /// Whether the handler has an answer to `event`. It has none to an inbound
    /// substream, and none to a failure of one other than a timeout or a
    /// failed negotiation: the node never listens.
    pub open spec fn accepts(event: ConnectionEventView) -> bool {
        match event {
            ConnectionEventView::FullyNegotiatedInbound => false,
            ConnectionEventView::ListenUpgradeError { error } => !(error is Other),
            _ => true,
        }
    }

    /// The state after `event` happened on the connection.
    pub open spec fn connection_event(self, event: ConnectionEventView) -> HandlerState {
        match event {
            ConnectionEventView::FullyNegotiatedOutbound { response, info } => self.emit(
                HandlerEventView::Response { request_id: info, response },
            ),
            ConnectionEventView::DialUpgradeError { info, error } => self.dial_upgrade_error(
                info,
                error,
            ),
            ConnectionEventView::ListenUpgradeError { error } => self.listen_upgrade_error(error),
            _ => self,
        }
    }

    /// The state after a poll at the time `now` and what the poll hands out.
    /// A pending error comes first, then the events for the behaviour, then the
    /// requests that wait for a substream. With nothing to hand out, a
    /// connection that was kept open without limit is from then on kept open
    /// for the substream timeout and the keep-alive timeout.
    pub open spec fn poll(self, now: u64) -> (HandlerState, Option<HandlerActionView>) {
        if let Some(error) = self.pending_error {
            (HandlerState { pending_error: None, ..self }, Some(HandlerActionView::Close(error)))
        } else if self.pending_events.len() > 0 {
            (
                HandlerState { pending_events: self.pending_events.drop_first(), ..self },
                Some(HandlerActionView::Custom(self.pending_events[0])),
            )
        } else if self.outbound.len() > 0 {
            (
                HandlerState { outbound: self.outbound.drop_first(), ..self },
                Some(
                    HandlerActionView::OutboundSubstreamRequest {
                        protocol: self.outbound[0],
                        info: self.outbound[0].request_id,
                        timeout: self.substream_timeout,
                    },
                ),
            )
        } else if self.keep_alive == KeepAlive::Yes {
            (
                HandlerState {
                    keep_alive: KeepAlive::Until(
                        (now + self.substream_timeout + self.keep_alive_timeout) as u128,
                    ),
                    ..self
                },
                None,
            )
        } else {
            (self, None)
        }
    }
}

/// The handler of one connection.
#[derive(Debug)]
pub struct RequestResponseHandler {
    keep_alive_timeout: u64,
    substream_timeout: u64,
    keep_alive: KeepAlive,
    pending_error: Option<UpgradeError>,
    pending_events: VecDeque<RequestResponseHandlerEvent>,
    outbound: VecDeque<RequestProtocol>,
}

impl View for RequestResponseHandler {
    type V = HandlerState;

    closed spec fn view(&self) -> HandlerState {
        HandlerState {
            keep_alive_timeout: self.keep_alive_timeout,
            substream_timeout: self.substream_timeout,
            keep_alive: self.keep_alive,
            pending_error: match self.pending_error {
                Some(e) => Some(e@),
                None => None,
            },
            pending_events: self.pending_events@.map_values(|e: RequestResponseHandlerEvent| e@),
            outbound: self.outbound@.map_values(|r: RequestProtocol| r@),
        }
    }
}

impl RequestResponseHandler {
    /// A handler with nothing to do, whose connection is kept open. Both
    /// timeouts are in milliseconds.
    pub fn new(keep_alive_timeout: u64, substream_timeout: u64) -> (handler: Self)
        ensures
            handler@ == (HandlerState {
                keep_alive_timeout,
                substream_timeout,
                keep_alive: KeepAlive::Yes,
                pending_error: None,
                pending_events: Seq::empty(),
                outbound: Seq::empty(),
            }),
    {
        let handler = Self {
            keep_alive: KeepAlive::Yes,
            keep_alive_timeout,
            substream_timeout,
            outbound: VecDeque::new(),
            pending_events: VecDeque::new(),
            pending_error: None,
        };
        proof {
            assert(handler@.pending_events =~= Seq::empty());
            assert(handler@.outbound =~= Seq::empty());
        }
        handler
    }

    /// Appends one event to what waits for the behaviour.
    fn emit(&mut self, event: RequestResponseHandlerEvent)
        ensures
            final(self)@ == old(self)@.emit(event@),
    {
        self.pending_events.push_back(event);
        assert(self@.pending_events =~= old(self)@.pending_events.push(event@));
    }

    /// Takes the failure to set up the substream of the request `info`.
    fn on_dial_upgrade_error(&mut self, info: RequestId, error: UpgradeError)
        ensures
            final(self)@ == old(self)@.dial_upgrade_error(info@, error@),
    {
        match error {
            UpgradeError::Timeout => {
                self.emit(RequestResponseHandlerEvent::OutboundTimeout(info));
            },
            UpgradeError::NegotiationFailed => {
                self.emit(RequestResponseHandlerEvent::OutboundUnsupportedProtocols(info));
            },
            UpgradeError::Other(description) => {
                self.pending_error = Some(UpgradeError::Other(description));
            },
        }
    }

    /// Takes the failure to set up an inbound substream.
    fn on_listen_upgrade_error(&mut self, error: UpgradeError)
        requires
            !(error is Other),
        ensures
            final(self)@ == old(self)@.listen_upgrade_error(error@),
    {
        match error {
            UpgradeError::Timeout => {
                self.emit(RequestResponseHandlerEvent::InboundTimeout);
            },
            _ => {
                self.emit(RequestResponseHandlerEvent::InboundUnsupportedProtocols);
            },
        }
    }

    /// The time allowed for an inbound substream, in milliseconds. Every
    /// inbound protocol is denied.
    pub fn listen_protocol(&self) -> (timeout: u64)
        ensures
            timeout == self@.substream_timeout,
    {
        self.substream_timeout
    }

    /// Takes a request from the behaviour. The connection is kept open while
    /// the request is outstanding.
    pub fn on_behaviour_event(&mut self, request: RequestProtocol)
        ensures
            final(self)@ == old(self)@.behaviour_event(request@),
    {
        self.keep_alive = KeepAlive::Yes;
        self.outbound.push_back(request);
        assert(self@.outbound =~= old(self)@.outbound.push(request@));
    }

    /// How long the connection is kept open as things stand.
    pub fn connection_keep_alive(&self) -> (keep_alive: KeepAlive)
        ensures
            keep_alive == self@.keep_alive,
    {
        self.keep_alive
    }

    /// Hands out what is to be done next on the connection, if anything,
    /// given the clock's reading `now` in milliseconds.
    pub fn poll(&mut self, now: u64) -> (action: Option<ConnectionHandlerEvent>)
        ensures
            (final(self)@, opt_action(action)) == old(self)@.poll(now),
    {
        if let Some(err) = self.pending_error.take() {
            return Some(ConnectionHandlerEvent::Close(err));
        }
        if let Some(event) = self.pending_events.pop_front() {
            assert(self@.pending_events =~= old(self)@.pending_events.drop_first());
            return Some(ConnectionHandlerEvent::Custom(event));
        } else if queue_capacity(&self.pending_events) > EMPTY_QUEUE_SHRINK_THRESHOLD {
            queue_shrink(&mut self.pending_events);
        }
        if let Some(request) = self.outbound.pop_front() {
            assert(self@.outbound =~= old(self)@.outbound.drop_first());
            let info = request.request_id;
            return Some(
                ConnectionHandlerEvent::OutboundSubstreamRequest {
                    protocol: request,
                    info,
                    timeout: self.substream_timeout,
                },
            );
        }
        if queue_capacity(&self.outbound) > EMPTY_QUEUE_SHRINK_THRESHOLD {
            queue_shrink(&mut self.outbound);
        }
        if self.keep_alive.is_yes() {
            let until = now as u128 + self.substream_timeout as u128 + self.keep_alive_timeout as u128;
            self.keep_alive = KeepAlive::Until(until);
        }
        None
    }

    /// Takes what happened on the connection. The handler has no answer to an
    /// inbound substream, nor to a failure of one other than a timeout or a
    /// failed negotiation; such events are left out.
    pub fn on_connection_event(&mut self, event: ConnectionEvent)
        requires
            HandlerState::accepts(event@),
        ensures
            final(self)@ == old(self)@.connection_event(event@),
    {
        match event {
            ConnectionEvent::FullyNegotiatedInbound => {},
            ConnectionEvent::FullyNegotiatedOutbound { response, info } => {
                self.emit(RequestResponseHandlerEvent::Response { request_id: info, response });
            },
            ConnectionEvent::DialUpgradeError { info, error } => {
                self.on_dial_upgrade_error(info, error);
            },
            ConnectionEvent::ListenUpgradeError { error } => {
                self.on_listen_upgrade_error(error);
            },
            ConnectionEvent::AddressChange => {},
        }
    }
}

} // verus!
