//! Peer-level bookkeeping of requests and responses: which peers are
//! connected, which requests wait for a connection or for a response, and
//! what is to be told to the swarm.

use crate::peer::address::{opt_addr, ConnectionId, Multiaddr, PeerId};
use crate::peer::handler::{
    HandlerEventView, HandlerState, KeepAlive, RequestResponseHandler, RequestResponseHandlerEvent,
};
use crate::peer::peer_map::PeerMap;
use crate::peer::protocol::{
    names_of, ProtocolInfo, ProtocolList, RequestPayload, RequestProtocol, RequestView,
    ResponsePayload,
};
use crate::text::{decimal, u64_to_string};
use smallvec::SmallVec;
use std::collections::HashSet;
use std::collections::VecDeque;
use vstd::prelude::*;
use vstd::std_specs::hash::spec_hash_keys_iter;
use vstd::std_specs::iter::IteratorSpec;
use vstd::string::StringExecFns;

verus! {

/// Why an outbound request did not bring a response.
#[derive(Debug, Clone, Copy, PartialEq, Eq, Structural)]
pub enum OutboundFailure {
    /// The request could not be sent because the peer could not be dialed.
    DialFailure,
    /// No response came in time. The peer may have received the request.
    Timeout,
    /// The connection closed before a response came. The peer may have
    /// received the request.
    ConnectionClosed,
    /// The peer supports none of the protocols that were offered.
    UnsupportedProtocols,
}

impl OutboundFailure {
    /// The sentence that describes the failure.
    pub open spec fn spec_message(self) -> Seq<char> {
        match self {
            OutboundFailure::DialFailure => "Failed to dial the requested peer"@,
            OutboundFailure::Timeout => "Timeout while waiting for a response"@,
            OutboundFailure::ConnectionClosed => "Connection was closed before a response was received"@,
            OutboundFailure::UnsupportedProtocols => "The remote supports none of the requested protocols"@,
        }
    }

    /// The sentence that describes the failure.
    pub fn to_string(&self) -> (text: String)
        ensures
            text@ == self.spec_message(),
    {
        match self {
            OutboundFailure::DialFailure => String::from_str("Failed to dial the requested peer"),
            OutboundFailure::Timeout => String::from_str("Timeout while waiting for a response"),
            OutboundFailure::ConnectionClosed => String::from_str(
                "Connection was closed before a response was received",
            ),
            OutboundFailure::UnsupportedProtocols => String::from_str(
                "The remote supports none of the requested protocols",
            ),
        }
    }
}

/// Why an inbound request was not served. The node accepts no inbound
/// requests, so these are not expected to occur.
#[derive(Debug, Clone, Copy, PartialEq, Eq, Structural)]
pub enum InboundFailure {
    /// The request was not read, or the response not sent, in time.
    Timeout,
    /// The local node supports none of the protocols that the peer asked for.
    UnsupportedProtocols,
}

impl InboundFailure {
    /// The sentence that describes the failure.
    pub open spec fn spec_message(self) -> Seq<char> {
        match self {
            InboundFailure::Timeout => "Timeout while receiving request or sending response"@,
            InboundFailure::UnsupportedProtocols => "The local peer supports none of the protocols requested by the remote"@,
        }
    }

    /// The sentence that describes the failure.
    pub fn to_string(&self) -> (text: String)
        ensures
            text@ == self.spec_message(),
    {
        match self {
            InboundFailure::Timeout => String::from_str(
                "Timeout while receiving request or sending response",
            ),
            InboundFailure::UnsupportedProtocols => String::from_str(
                "The local peer supports none of the protocols requested by the remote",
            ),
        }
    }
}

/// The local identifier of a request. Identifiers are unique among the
/// outbound requests of one behaviour and nowhere else.
#[derive(Debug, Copy, Clone, PartialEq, Eq, Hash, Structural)]
pub struct RequestId(pub(crate) u64);

impl View for RequestId {
    type V = u64;

    closed spec fn view(&self) -> u64 {
        self.0
    }
}

impl RequestId {
    /// The number behind the identifier.
    pub fn value(&self) -> (n: u64)
        ensures
            n == self@,
    {
        self.0
    }

    /// The identifier written in decimal.
    pub fn to_string(&self) -> (text: String)
        ensures
            text@ == decimal(self@ as nat),
    {
        u64_to_string(self.0)
    }
}

/// The timeouts of the request/response protocol, in milliseconds.
#[derive(Debug, Clone, Copy, PartialEq, Eq, Structural)]
pub struct RequestResponseConfig {
    /// How long a request may take on its substream.
    pub request_timeout: u64,
    /// How long a connection without requests is kept open.
    pub connection_keep_alive: u64,
}

impl Default for RequestResponseConfig {
    /// Ten seconds for a request and ten seconds of keep-alive.
    fn default() -> (config: Self)
        ensures
            config == (RequestResponseConfig { request_timeout: 10000, connection_keep_alive: 10000 }),
    {
        Self { connection_keep_alive: 10000, request_timeout: 10000 }
    }
}

/// A queue that is empty gives its memory back once it holds room for more
/// items than this.
pub const EMPTY_QUEUE_SHRINK_THRESHOLD: usize = 100;

/// An established connection, apart from how it is stored.
pub struct ConnectionView {
    /// The identifier of the connection.
    pub id: ConnectionId,
    /// The address of the peer, known where the local node dialed.
    pub address: Option<Seq<u8>>,
    /// The requests sent over this connection that wait for a response.
    pub pending: Set<u64>,
}

/// What is tracked for an established connection.
#[derive(Debug)]
pub struct Connection {
    id: ConnectionId,
    address: Option<Multiaddr>,
    pending_inbound_responses: HashSet<u64>,
}

impl View for Connection {
    type V = ConnectionView;

    closed spec fn view(&self) -> ConnectionView {
        ConnectionView {
            id: self.id,
            address: opt_addr(self.address),
            pending: self.pending_inbound_responses@,
        }
    }
}

impl Connection {
    /// A connection that waits for no response.
    fn new(id: ConnectionId, address: Option<Multiaddr>) -> (connection: Self)
        ensures
            connection@ == (ConnectionView { id, address: opt_addr(address), pending: Set::empty() }),
    {
        Self { id, address, pending_inbound_responses: HashSet::new() }
    }
}

/// The connections to one peer, kept inline in a `smallvec::SmallVec`.
#[verifier::external_body]
#[derive(Debug)]
pub struct ConnectionList {
    items: SmallVec<[Connection; 2]>,
}

/// The connections that a list holds, in order.
pub uninterp spec fn connections_in(list: ConnectionList) -> Seq<Connection>;

impl View for ConnectionList {
    type V = Seq<ConnectionView>;

    open spec fn view(&self) -> Seq<ConnectionView> {
        connections_in(*self).map_values(|c: Connection| c@)
    }
}

/// Makes a list with `SmallVec::new`: it holds nothing.
#[verifier::external_body]
fn conns_new() -> (list: ConnectionList)
    ensures
        connections_in(list) == Seq::<Connection>::empty(),
{
    ConnectionList { items: SmallVec::new() }
}

/// Appends with `SmallVec::push`: the item comes last, the others stay.
#[verifier::external_body]
fn conns_push(list: &mut ConnectionList, connection: Connection)
    ensures
        connections_in(*final(list)) == connections_in(*old(list)).push(connection),
{
    list.items.push(connection)
}

/// Takes an item out with `SmallVec::remove`: the items behind it move up.
#[verifier::external_body]
fn conns_remove(list: &mut ConnectionList, index: usize) -> (connection: Connection)
    requires
        index < connections_in(*old(list)).len(),
    ensures
        connection == connections_in(*old(list))[index as int],
        connections_in(*final(list)) == connections_in(*old(list)).remove(index as int),
{
    list.items.remove(index)
}

/// Puts an item in with `SmallVec::insert`: the items from `index` on move
/// back.
#[verifier::external_body]
fn conns_insert(list: &mut ConnectionList, index: usize, connection: Connection)
    requires
        index <= connections_in(*old(list)).len(),
    ensures
        connections_in(*final(list)) == connections_in(*old(list)).insert(index as int, connection),
{
    list.items.insert(index, connection)
}

/// Borrows the items with `SmallVec::as_slice`.
#[verifier::external_body]
fn conns_as_slice(list: &ConnectionList) -> (items: &[Connection])
    ensures
        items@ == connections_in(*list),
{
    list.items.as_slice()
}

/// The test that an address differs from `address`.
pub open spec fn other_than(address: Seq<u8>) -> spec_fn(Multiaddr) -> bool {
    |a: Multiaddr| a@ != address
}

/// The test that a byte string differs from `address`.
pub open spec fn other_bytes_than(address: Seq<u8>) -> spec_fn(Seq<u8>) -> bool {
    |a: Seq<u8>| a != address
}

/// The known addresses of one peer, kept inline in a `smallvec::SmallVec`.
#[verifier::external_body]
#[derive(Debug)]
pub struct AddressList {
    items: SmallVec<[Multiaddr; 6]>,
}

/// The addresses that a list holds, in order.
pub uninterp spec fn addresses_in(list: AddressList) -> Seq<Multiaddr>;

impl View for AddressList {
    type V = Seq<Seq<u8>>;

    open spec fn view(&self) -> Seq<Seq<u8>> {
        addresses_in(*self).map_values(|a: Multiaddr| a@)
    }
}

/// Makes a list with `SmallVec::new`: it holds nothing.
#[verifier::external_body]
fn addrs_new() -> (list: AddressList)
    ensures
        addresses_in(list) == Seq::<Multiaddr>::empty(),
{
    AddressList { items: SmallVec::new() }
}

/// Appends with `SmallVec::push`: the item comes last, the others stay.
#[verifier::external_body]
fn addrs_push(list: &mut AddressList, address: Multiaddr)
    ensures
        addresses_in(*final(list)) == addresses_in(*old(list)).push(address),
{
    list.items.push(address)
}

/// Drops every item equal to `address` with `SmallVec::retain`: the others
/// stay, in their order.
#[verifier::external_body]
fn addrs_retain_other(list: &mut AddressList, address: &Multiaddr)
    ensures
        addresses_in(*final(list)) == addresses_in(*old(list)).filter(other_than(address@)),
{
    list.items.retain(|a| !a.same_as(address))
}

/// Borrows the items with `SmallVec::as_slice`.
#[verifier::external_body]
fn addrs_as_slice(list: &AddressList) -> (items: &[Multiaddr])
    ensures
        items@ == addresses_in(*list),
{
    list.items.as_slice()
}

/// The requests that wait for a connection to one peer, kept inline in a
/// `smallvec::SmallVec`.
#[verifier::external_body]
#[derive(Debug)]
pub struct PendingList {
    items: SmallVec<[RequestProtocol; 10]>,
}

/// The requests that a list holds, in order.
pub uninterp spec fn requests_in(list: PendingList) -> Seq<RequestProtocol>;

impl View for PendingList {
    type V = Seq<RequestView>;

    open spec fn view(&self) -> Seq<RequestView> {
        requests_in(*self).map_values(|r: RequestProtocol| r@)
    }
}

/// Makes a list with `SmallVec::new`: it holds nothing.
#[verifier::external_body]
fn pending_new() -> (list: PendingList)
    ensures
        requests_in(list) == Seq::<RequestProtocol>::empty(),
{
    PendingList { items: SmallVec::new() }
}

/// Appends with `SmallVec::push`: the item comes last, the others stay.
#[verifier::external_body]
fn pending_push(list: &mut PendingList, request: RequestProtocol)
    ensures
        requests_in(*final(list)) == requests_in(*old(list)).push(request),
{
    list.items.push(request)
}

/// Borrows the items with `SmallVec::as_slice`.
#[verifier::external_body]
fn pending_as_slice(list: &PendingList) -> (items: &[RequestProtocol])
    ensures
        items@ == requests_in(*list),
{
    list.items.as_slice()
}

/// Hands the items out with `SmallVec::into_vec`, in their order.
#[verifier::external_body]
fn pending_into_vec(list: PendingList) -> (items: Vec<RequestProtocol>)
    ensures
        items@ == requests_in(list),
{
    list.items.into_vec()
}

/// A message that came in from a peer.
#[derive(Debug)]
pub enum RequestResponseMessage {
    /// The response to the request with the given identifier.
    Response { request_id: RequestId, response: ResponsePayload },
}

/// What the behaviour reports of a request.
#[derive(Debug)]
#[allow(inconsistent_fields)]
pub enum RequestResponseEvent {
    /// A message came in from `peer`.
    Message { peer: PeerId, message: RequestResponseMessage },
    /// An outbound request to `peer` failed.
    OutboundFailure { peer: PeerId, request_id: RequestId, error: OutboundFailure },
    /// An inbound request from `peer` failed.
    InboundFailure { peer: PeerId, error: InboundFailure },
}

/// What the behaviour asks of the swarm.
#[derive(Debug)]
pub enum BehaviourAction {
    /// Report this event to the owner of the swarm.
    GenerateEvent(RequestResponseEvent),
    /// Dial `peer` at the addresses known for it.
    Dial { peer: PeerId },
    /// Hand `event` to the handler of `connection` to `peer`.
    NotifyHandler { peer: PeerId, connection: ConnectionId, event: RequestProtocol },
}

/// An event, apart from how it is stored.
#[allow(inconsistent_fields)]
pub enum EventView {
    Response { peer: Seq<u8>, request_id: u64, response: Seq<u8> },
    OutboundFailure { peer: Seq<u8>, request_id: u64, error: OutboundFailure },
    InboundFailure { peer: Seq<u8>, error: InboundFailure },
}

/// An action, apart from how it is stored.
pub enum ActionView {
    GenerateEvent(EventView),
    Dial { peer: Seq<u8> },
    NotifyHandler { peer: Seq<u8>, connection: ConnectionId, request: RequestView },
}

impl View for RequestResponseEvent {
    type V = EventView;

    open spec fn view(&self) -> EventView {
        match self {
            RequestResponseEvent::Message {
                peer,
                message: RequestResponseMessage::Response { request_id, response },
            } => EventView::Response { peer: peer@, request_id: request_id@, response: response@ },
            RequestResponseEvent::OutboundFailure { peer, request_id, error } => EventView::OutboundFailure {
                peer: peer@,
                request_id: request_id@,
                error: *error,
            },
            RequestResponseEvent::InboundFailure { peer, error } => EventView::InboundFailure {
                peer: peer@,
                error: *error,
            },
        }
    }
}

impl View for BehaviourAction {
    type V = ActionView;

    open spec fn view(&self) -> ActionView {
        match self {
            BehaviourAction::GenerateEvent(event) => ActionView::GenerateEvent(event@),
            BehaviourAction::Dial { peer } => ActionView::Dial { peer: peer@ },
            BehaviourAction::NotifyHandler { peer, connection, event } => ActionView::NotifyHandler {
                peer: peer@,
                connection: *connection,
                request: event@,
            },
        }
    }
}

/// Whether a connection with the identifier `id` is among `conns`.
pub open spec fn has_connection(conns: Seq<ConnectionView>, id: ConnectionId) -> bool {
    exists|i: int| 0 <= i < conns.len() && (#[trigger] conns[i]).id == id
}

/// Whether `i` is the position of the first connection with the identifier
/// `id` among `conns`.
pub open spec fn is_first_connection(conns: Seq<ConnectionView>, id: ConnectionId, i: int) -> bool {
    &&& 0 <= i < conns.len()
    &&& conns[i].id == id
    &&& forall|j: int| 0 <= j < i ==> (#[trigger] conns[j]).id != id
}

/// The position of the first connection with the identifier `id`.
pub open spec fn first_connection(conns: Seq<ConnectionView>, id: ConnectionId) -> int {
    choose|i: int| is_first_connection(conns, id, i)
}

/// The failures that tell of the requests `ids`, in their order.
pub open spec fn failures_of(peer: Seq<u8>, ids: Seq<u64>, error: OutboundFailure) -> Seq<ActionView> {
    ids.map_values(
        |id: u64| ActionView::GenerateEvent(EventView::OutboundFailure { peer, request_id: id, error }),
    )
}

/// The addresses of those connections that have one, in order.
pub open spec fn connection_addresses(conns: Seq<ConnectionView>) -> Seq<Seq<u8>>
    decreases conns.len(),
{
    if conns.len() == 0 {
        Seq::empty()
    } else {
        let front = connection_addresses(conns.drop_last());
        match conns.last().address {
            Some(a) => front.push(a),
            None => front,
        }
    }
}

/// The state of the behaviour, apart from how it is stored.
pub struct BehaviourState {
    /// The identifier that the next request gets.
    pub next_request_id: nat,
    /// What waits to be handed to the swarm, oldest first.
    pub pending_events: Seq<ActionView>,
    /// The connections to each connected peer.
    pub connected: Map<Seq<u8>, Seq<ConnectionView>>,
    /// The addresses that were added for each peer.
    pub addresses: Map<Seq<u8>, Seq<Seq<u8>>>,
    /// The requests that wait for a connection to each peer.
    pub pending_outbound: Map<Seq<u8>, Seq<RequestView>>,
}

impl BehaviourState {
    /// Whether there is a connection to `peer`.
    pub open spec fn is_connected(self, peer: Seq<u8>) -> bool {
        self.connected.dom().contains(peer) && self.connected[peer].len() > 0
    }

    /// The connections to `peer`; none where the peer has no entry.
    pub open spec fn connections_of(self, peer: Seq<u8>) -> Seq<ConnectionView> {
        if self.connected.dom().contains(peer) {
            self.connected[peer]
        } else {
            Seq::empty()
        }
    }

    /// The requests that wait for a connection to `peer`.
    pub open spec fn waiting_for(self, peer: Seq<u8>) -> Seq<RequestView> {
        if self.pending_outbound.dom().contains(peer) {
            self.pending_outbound[peer]
        } else {
            Seq::empty()
        }
    }

    /// The addresses added for `peer`.
    pub open spec fn addresses_of(self, peer: Seq<u8>) -> Seq<Seq<u8>> {
        if self.addresses.dom().contains(peer) {
            self.addresses[peer]
        } else {
            Seq::empty()
        }
    }

    /// Whether the request `id` to `peer` still waits: for a connection, or
    /// for its response on a connection.
    pub open spec fn is_pending_outbound(self, peer: Seq<u8>, id: u64) -> bool {
        ||| exists|i: int|
            0 <= i < self.connections_of(peer).len() && (#[trigger] self.connections_of(
                peer,
            )[i]).pending.contains(id)
        ||| exists|i: int|
            0 <= i < self.waiting_for(peer).len() && (#[trigger] self.waiting_for(peer)[i]).request_id
                == id
    }

    /// The position of the connection that the request `id` goes to, among
    /// `count` connections: the identifier modulo the count.
    pub open spec fn chosen_connection(id: u64, count: nat) -> int {
        id as int % count as int
    }

    /// The state after `request` was handed to a connection to `peer`. The
    /// request then waits for its response on that connection.
    pub open spec fn dispatch(self, peer: Seq<u8>, request: RequestView) -> BehaviourState {
        let conns = self.connected[peer];
        let ix = Self::chosen_connection(request.request_id, conns.len());
        let conn = conns[ix];
        BehaviourState {
            connected: self.connected.insert(
                peer,
                conns.update(
                    ix,
                    ConnectionView {
                        id: conn.id,
                        address: conn.address,
                        pending: conn.pending.insert(request.request_id),
                    },
                ),
            ),
            pending_events: self.pending_events.push(
                ActionView::NotifyHandler { peer, connection: conn.id, request },
            ),
            ..self
        }
    }

    /// The state after `requests` were handed to connections to `peer`, one
    /// after the other.
    pub open spec fn dispatch_all(self, peer: Seq<u8>, requests: Seq<RequestView>) -> BehaviourState
        decreases requests.len(),
    {
        if requests.len() == 0 {
            self
        } else {
            self.dispatch(peer, requests[0]).dispatch_all(peer, requests.drop_first())
        }
    }

    /// The state after `request` was queued for `peer` and a dial was asked
    /// for.
    pub open spec fn enqueue(self, peer: Seq<u8>, request: RequestView) -> BehaviourState {
        BehaviourState {
            pending_events: self.pending_events.push(ActionView::Dial { peer }),
            pending_outbound: self.pending_outbound.insert(peer, self.waiting_for(peer).push(request)),
            ..self
        }
    }

    /// The state after a request to `peer` was made.
    pub open spec fn send_request(
        self,
        peer: Seq<u8>,
        protocols: Seq<Seq<u8>>,
        payload: Seq<u8>,
    ) -> BehaviourState {
        let request = RequestView { request_id: self.next_request_id as u64, protocols, payload };
        let next = BehaviourState { next_request_id: self.next_request_id + 1, ..self };
        if self.is_connected(peer) {
            next.dispatch(peer, request)
        } else {
            next.enqueue(peer, request)
        }
    }

    /// The state after `address` was added for `peer`.
    pub open spec fn add_address(self, peer: Seq<u8>, address: Seq<u8>) -> BehaviourState {
        BehaviourState {
            addresses: self.addresses.insert(peer, self.addresses_of(peer).push(address)),
            ..self
        }
    }

    /// The state after `address` was removed for `peer`. A peer without
    /// addresses keeps no entry.
    pub open spec fn remove_address(self, peer: Seq<u8>, address: Seq<u8>) -> BehaviourState {
        if self.addresses.dom().contains(peer) {
            let rest = self.addresses[peer].filter(other_bytes_than(address));
            if rest.len() == 0 {
                BehaviourState { addresses: self.addresses.remove(peer), ..self }
            } else {
                BehaviourState { addresses: self.addresses.insert(peer, rest), ..self }
            }
        } else {
            self
        }
    }

    /// The state after a connection to `peer` was established. The first
    /// connection to a peer takes the requests that waited for it.
    pub open spec fn connection_established(
        self,
        peer: Seq<u8>,
        id: ConnectionId,
        address: Option<Seq<u8>>,
        other_established: nat,
    ) -> BehaviourState {
        let conn = ConnectionView { id, address, pending: Set::empty() };
        let joined = BehaviourState {
            connected: self.connected.insert(peer, self.connections_of(peer).push(conn)),
            ..self
        };
        if other_established == 0 && self.pending_outbound.dom().contains(peer) {
            BehaviourState {
                pending_outbound: self.pending_outbound.remove(peer),
                ..joined
            }.dispatch_all(peer, self.pending_outbound[peer])
        } else {
            joined
        }
    }

    /// The state after the connection `id` to `peer` was closed, where the
    /// requests that waited on it are reported as failed in the order `order`.
    pub open spec fn connection_closed(
        self,
        peer: Seq<u8>,
        id: ConnectionId,
        order: Seq<u64>,
    ) -> BehaviourState {
        let conns = self.connected[peer];
        let rest = conns.remove(first_connection(conns, id));
        BehaviourState {
            connected: if rest.len() == 0 {
                self.connected.remove(peer)
            } else {
                self.connected.insert(peer, rest)
            },
            pending_events: self.pending_events + failures_of(
                peer,
                order,
                OutboundFailure::ConnectionClosed,
            ),
            ..self
        }
    }

    /// The state after dialing `peer` failed: the requests that waited for a
    /// connection to it have failed.
    pub open spec fn dial_failure(self, peer: Option<Seq<u8>>) -> BehaviourState {
        match peer {
            Some(peer) => if self.pending_outbound.dom().contains(peer) {
                BehaviourState {
                    pending_outbound: self.pending_outbound.remove(peer),
                    pending_events: self.pending_events + failures_of(
                        peer,
                        self.pending_outbound[peer].map_values(|r: RequestView| r.request_id),
                        OutboundFailure::DialFailure,
                    ),
                    ..self
                }
            } else {
                self
            },
            None => self,
        }
    }

    /// The state after the peer's address on the connection `id` changed.
    pub open spec fn address_change(
        self,
        peer: Seq<u8>,
        id: ConnectionId,
        address: Option<Seq<u8>>,
    ) -> BehaviourState {
        let conns = self.connected[peer];
        let ix = first_connection(conns, id);
        BehaviourState {
            connected: self.connected.insert(
                peer,
                conns.update(
                    ix,
                    ConnectionView { id: conns[ix].id, address, pending: conns[ix].pending },
                ),
            ),
            ..self
        }
    }

    /// The state in which the request `request` no longer waits for a
    /// response on the connection `id` to `peer`.
    pub open spec fn settle(self, peer: Seq<u8>, id: ConnectionId, request: u64) -> BehaviourState {
        if self.connected.dom().contains(peer) && has_connection(self.connected[peer], id) {
            let conns = self.connected[peer];
            let ix = first_connection(conns, id);
            BehaviourState {
                connected: self.connected.insert(
                    peer,
                    conns.update(
                        ix,
                        ConnectionView {
                            id: conns[ix].id,
                            address: conns[ix].address,
                            pending: conns[ix].pending.remove(request),
                        },
                    ),
                ),
                ..self
            }
        } else {
            self
        }
    }

    /// The state with one more event to report.
    pub open spec fn report(self, event: EventView) -> BehaviourState {
        BehaviourState {
            pending_events: self.pending_events.push(ActionView::GenerateEvent(event)),
            ..self
        }
    }

    /// The state after the handler of the connection `id` to `peer` told of
    /// `event`.
    pub open spec fn handler_event(
        self,
        peer: Seq<u8>,
        id: ConnectionId,
        event: HandlerEventView,
    ) -> BehaviourState {
        match event {
            HandlerEventView::Response { request_id, response } => self.settle(
                peer,
                id,
                request_id,
            ).report(EventView::Response { peer, request_id, response }),
            HandlerEventView::OutboundTimeout(request_id) => self.settle(peer, id, request_id).report(
                EventView::OutboundFailure { peer, request_id, error: OutboundFailure::Timeout },
            ),
            HandlerEventView::OutboundUnsupportedProtocols(request_id) => self.settle(
                peer,
                id,
                request_id,
            ).report(
                EventView::OutboundFailure {
                    peer,
                    request_id,
                    error: OutboundFailure::UnsupportedProtocols,
                },
            ),
            HandlerEventView::InboundTimeout => self.report(
                EventView::InboundFailure { peer, error: InboundFailure::Timeout },
            ),
            HandlerEventView::InboundUnsupportedProtocols => self.report(
                EventView::InboundFailure { peer, error: InboundFailure::UnsupportedProtocols },
            ),
        }
    }

    /// Whether the connection `id` to `peer` is known.
    pub open spec fn knows_connection(self, peer: Seq<u8>, id: ConnectionId) -> bool {
        self.connected.dom().contains(peer) && has_connection(self.connected[peer], id)
    }

    /// The requests that wait for a response on the connection `id` to `peer`.
    pub open spec fn pending_on(self, peer: Seq<u8>, id: ConnectionId) -> Set<u64> {
        self.connected[peer][first_connection(self.connected[peer], id)].pending
    }

    /// The addresses at which `peer` may be reached: those of its
    /// connections, then those that were added for it.
    pub open spec fn known_addresses(self, peer: Seq<u8>) -> Seq<Seq<u8>> {
        connection_addresses(self.connections_of(peer)) + self.addresses_of(peer)
    }
}

/// The local end of a connection.
#[derive(Debug)]
pub enum ConnectedPoint {
    /// The local node dialed the peer at `address`.
    Dialer { address: Multiaddr },
    /// The peer dialed the local node.
    Listener,
}

impl ConnectedPoint {
    /// The address of the peer, known where the local node dialed.
    pub open spec fn spec_address(self) -> Option<Seq<u8>> {
        match self {
            ConnectedPoint::Dialer { address } => Some(address@),
            ConnectedPoint::Listener => None,
        }
    }

    /// Whether the local node dialed.
    pub fn is_dialer(&self) -> (dialer: bool)
        ensures
            dialer == (self is Dialer),
    {
        match self {
            ConnectedPoint::Dialer { .. } => true,
            ConnectedPoint::Listener => false,
        }
    }

    /// The address of the peer, known where the local node dialed.
    pub fn into_address(self) -> (address: Option<Multiaddr>)
        ensures
            opt_addr(address) == self.spec_address(),
    {
        match self {
            ConnectedPoint::Dialer { address } => Some(address),
            ConnectedPoint::Listener => None,
        }
    }
}

/// A connection to a peer was established.
#[derive(Debug)]
pub struct ConnectionEstablished {
    pub peer_id: PeerId,
    pub connection_id: ConnectionId,
    pub endpoint: ConnectedPoint,
    /// The connections to the peer that were there before this one.
    pub other_established: usize,
}

/// A connection to a peer was closed.
#[derive(Debug)]
pub struct ConnectionClosed {
    pub peer_id: PeerId,
    pub connection_id: ConnectionId,
    /// The connections to the peer that are left.
    pub remaining_established: usize,
}

/// The address of the peer on a connection changed.
#[derive(Debug)]
pub struct AddressChange {
    pub peer_id: PeerId,
    pub connection_id: ConnectionId,
    pub new: ConnectedPoint,
}

/// Dialing failed. The peer is known unless an address without a peer was
/// dialed.
#[derive(Debug)]
pub struct DialFailure {
    pub peer_id: Option<PeerId>,
}

/// What the swarm tells the behaviour.
#[derive(Debug)]
pub enum FromSwarm {
    ConnectionEstablished(ConnectionEstablished),
    ConnectionClosed(ConnectionClosed),
    AddressChange(AddressChange),
    DialFailure(DialFailure),
    /// Anything about listeners and external addresses, which the behaviour
    /// leaves alone.
    Other,
}

/// The request/response behaviour: the bookkeeping for all peers.
#[derive(Debug)]
pub struct RequestResponse {
    next_request_id: RequestId,
    config: RequestResponseConfig,
    pending_events: VecDeque<BehaviourAction>,
    connected: PeerMap<ConnectionList>,
    addresses: PeerMap<AddressList>,
    pending_outbound_requests: PeerMap<PendingList>,
}

impl View for RequestResponse {
    type V = BehaviourState;

    closed spec fn view(&self) -> BehaviourState {
        BehaviourState {
            next_request_id: self.next_request_id.0 as nat,
            pending_events: self.pending_events@.map_values(|a: BehaviourAction| a@),
            connected: self.connected@.map_values(|l: ConnectionList| l@),
            addresses: self.addresses@.map_values(|l: AddressList| l@),
            pending_outbound: self.pending_outbound_requests@.map_values(|l: PendingList| l@),
        }
    }
}

impl RequestResponse {
    /// Whether the behaviour is what it should be: each of its maps holds
    /// every peer once.
    pub closed spec fn wf(&self) -> bool {
        &&& self.connected.wf()
        &&& self.addresses.wf()
        &&& self.pending_outbound_requests.wf()
    }

    /// The configuration that the behaviour was made with.
    pub closed spec fn spec_config(&self) -> RequestResponseConfig {
        self.config
    }

    /// A behaviour that knows no peer. Its first request gets the identifier 1.
    pub fn new(cfg: RequestResponseConfig) -> (behaviour: Self)
        ensures
            behaviour.wf(),
            behaviour.spec_config() == cfg,
            behaviour@ == (BehaviourState {
                next_request_id: 1,
                pending_events: Seq::empty(),
                connected: Map::empty(),
                addresses: Map::empty(),
                pending_outbound: Map::empty(),
            }),
    {
        let behaviour = RequestResponse {
            next_request_id: RequestId(1),
            config: cfg,
            pending_events: VecDeque::new(),
            connected: PeerMap::new(),
            pending_outbound_requests: PeerMap::new(),
            addresses: PeerMap::new(),
        };
        proof {
            assert(behaviour@.pending_events =~= Seq::empty());
            assert(behaviour@.connected =~= Map::empty());
            assert(behaviour@.addresses =~= Map::empty());
            assert(behaviour@.pending_outbound =~= Map::empty());
        }
        behaviour
    }

    /// The configuration that the behaviour was made with.
    pub fn config(&self) -> (cfg: RequestResponseConfig)
        ensures
            cfg == self.spec_config(),
    {
        self.config
    }

    /// Hands out the next request identifier.
    fn next_request_id(&mut self) -> (id: RequestId)
        requires
            old(self)@.next_request_id < u64::MAX,
        ensures
            final(self).wf() == old(self).wf(),
            final(self).spec_config() == old(self).spec_config(),
            id@ == old(self)@.next_request_id,
            final(self)@ == (BehaviourState {
                next_request_id: old(self)@.next_request_id + 1,
                ..old(self)@
            }),
    {
        let request_id = self.next_request_id;
        self.next_request_id = RequestId(request_id.0 + 1);
        request_id
    }

    /// Hands a request to a connection to `peer`, if there is one. Without a
    /// connection the request comes back unchanged.
    fn try_send_request(&mut self, peer: &PeerId, request: RequestProtocol) -> (unsent: Option<
        RequestProtocol,
    >)
        requires
            old(self).wf(),
        ensures
            final(self).wf(),
            final(self).spec_config() == old(self).spec_config(),
            match unsent {
                Some(r) => r == request && !old(self)@.is_connected(peer@) && final(self)@ == old(
                    self,
                )@,
                None => old(self)@.is_connected(peer@) && final(self)@ == old(self)@.dispatch(
                    peer@,
                    request@,
                ),
            },
    {
        broadcast use vstd::std_specs::hash::group_hash_axioms;

        let count = match self.connected.get(peer) {
            Some(list) => conns_as_slice(list).len(),
            None => 0,
        };
        if count == 0 {
            return Some(request);
        }
        let mut connections = self.connected.remove(peer).unwrap();
        let ghost before = connections_in(connections);
        let ix = (request.request_id.0 % (count as u64)) as usize;
        let mut conn = conns_remove(&mut connections, ix);
        let ghost conn_before = conn@;
        conn.pending_inbound_responses.insert(request.request_id.0);
        let id = conn.id;
        let ghost conn_after = conn;
        conns_insert(&mut connections, ix, conn);
        let ghost request_view = request@;
        proof {
            assert(connections_in(connections) =~= before.update(ix as int, conn_after));
            assert(connections@ =~= old(self)@.connected[peer@].update(ix as int, conn_after@));
            assert(conn_after@ == (ConnectionView {
                id: conn_before.id,
                address: conn_before.address,
                pending: conn_before.pending.insert(request_view.request_id),
            }));
        }
        self.connected.insert(peer.duplicate(), connections);
        self.pending_events.push_back(
            BehaviourAction::NotifyHandler { peer: peer.duplicate(), connection: id, event: request },
        );
        proof {
            let target = old(self)@.dispatch(peer@, request_view);
            assert(self@.connected =~= target.connected);
            assert(self@.pending_events =~= target.pending_events);
        }
        None
    }

    /// Makes a request to `peer` and returns its identifier. Where `peer` is
    /// connected, the request goes to one of its connections; else it waits
    /// for a connection and a dial is asked for. That the identifier is
    /// returned does not mean that the request has been sent.
    pub fn send_request(
        &mut self,
        peer: &PeerId,
        protocols: &[ProtocolInfo],
        request: RequestPayload,
    ) -> (request_id: RequestId)
        requires
            old(self).wf(),
            old(self)@.next_request_id < u64::MAX,
        ensures
            final(self).wf(),
            final(self).spec_config() == old(self).spec_config(),
            request_id@ == old(self)@.next_request_id,
            final(self)@ == old(self)@.send_request(peer@, names_of(protocols@), request@),
    {
        let request_id = self.next_request_id();
        let request = RequestProtocol {
            request_id,
            protocols: ProtocolList::from_slice(protocols),
            payload: request,
        };
        let ghost next = self@;
        let ghost request_view = request@;
        if let Some(request) = self.try_send_request(peer, request) {
            self.pending_events.push_back(BehaviourAction::Dial { peer: peer.duplicate() });
            let mut waiting = match self.pending_outbound_requests.remove(peer) {
                Some(list) => list,
                None => pending_new(),
            };
            assert(waiting@ =~= next.waiting_for(peer@));
            pending_push(&mut waiting, request);
            assert(waiting@ =~= next.waiting_for(peer@).push(request_view));
            self.pending_outbound_requests.insert(peer.duplicate(), waiting);
            proof {
                let target = next.enqueue(peer@, request_view);
                assert(self@.pending_outbound =~= target.pending_outbound);
                assert(self@.pending_events =~= target.pending_events);
            }
        }
        request_id
    }

    /// Adds an address at which `peer` may be dialed. It stays until it is
    /// removed.
    pub fn add_address(&mut self, peer: &PeerId, address: Multiaddr)
        requires
            old(self).wf(),
        ensures
            final(self).wf(),
            final(self).spec_config() == old(self).spec_config(),
            final(self)@ == old(self)@.add_address(peer@, address@),
    {
        let mut known = match self.addresses.remove(peer) {
            Some(list) => list,
            None => addrs_new(),
        };
        assert(known@ =~= old(self)@.addresses_of(peer@));
        addrs_push(&mut known, address);
        assert(known@ =~= old(self)@.addresses_of(peer@).push(address@));
        self.addresses.insert(peer.duplicate(), known);
        assert(self@.addresses =~= old(self)@.add_address(peer@, address@).addresses);
    }

    /// Removes an address that was added for `peer`. A peer whose last
    /// address is removed keeps no entry.
    pub fn remove_address(&mut self, peer: &PeerId, address: &Multiaddr)
        requires
            old(self).wf(),
        ensures
            final(self).wf(),
            final(self).spec_config() == old(self).spec_config(),
            final(self)@ == old(self)@.remove_address(peer@, address@),
    {
        match self.addresses.remove(peer) {
            Some(mut known) => {
                let ghost before = addresses_in(known);
                addrs_retain_other(&mut known, address);
                proof {
                    lemma_filter_views(before, address@, |a: Multiaddr| a@);
                    assert(known@ == old(self)@.addresses[peer@].filter(other_bytes_than(address@)));
                }
                if addrs_as_slice(&known).len() == 0 {
                    assert(self@.addresses =~= old(self)@.remove_address(peer@, address@).addresses);
                } else {
                    self.addresses.insert(peer.duplicate(), known);
                    assert(self@.addresses =~= old(self)@.remove_address(peer@, address@).addresses);
                }
            },
            None => {
                assert(self@.addresses =~= old(self)@.addresses);
            },
        }
    }

    /// Whether the connection `connection` to `peer` is known.
    pub fn knows_connection(&self, peer: &PeerId, connection: ConnectionId) -> (known: bool)
        requires
            self.wf(),
        ensures
            known == self@.knows_connection(peer@, connection),
    {
        match self.connected.get(peer) {
            Some(list) => find_connection(list, connection).is_some(),
            None => false,
        }
    }

    /// The identifier that the next request gets.
    pub fn upcoming_request_id(&self) -> (id: RequestId)
        ensures
            id@ == self@.next_request_id,
    {
        self.next_request_id
    }

    /// Whether another request identifier can be handed out.
    pub fn has_request_ids_left(&self) -> (left: bool)
        ensures
            left == (self@.next_request_id < u64::MAX),
    {
        self.next_request_id.0 < u64::MAX
    }

    /// Whether there is a connection to `peer`.
    pub fn is_connected(&self, peer: &PeerId) -> (connected: bool)
        requires
            self.wf(),
        ensures
            connected == self@.is_connected(peer@),
    {
        match self.connected.get(peer) {
            Some(connections) => conns_as_slice(connections).len() != 0,
            None => false,
        }
    }

    /// Whether the request `request_id` to `peer` still waits for a
    /// connection or for its response.
    pub fn is_pending_outbound(&self, peer: &PeerId, request_id: &RequestId) -> (pending: bool)
        requires
            self.wf(),
        ensures
            pending == self@.is_pending_outbound(peer@, request_id@),
    {
        broadcast use vstd::std_specs::hash::group_hash_axioms;

        let mut est_conn = false;
        if let Some(list) = self.connected.get(peer) {
            let connections = conns_as_slice(list);
            let mut i: usize = 0;
            while i < connections.len()
                invariant
                    i <= connections@.len(),
                    connections@.map_values(|c: Connection| c@) == self@.connections_of(peer@),
                    est_conn == exists|k: int|
                        0 <= k < i && (#[trigger] self@.connections_of(peer@)[k]).pending.contains(
                            request_id@,
                        ),
                decreases connections@.len() - i,
            {
                if connections[i].pending_inbound_responses.contains(&request_id.0) {
                    assert(self@.connections_of(peer@)[i as int].pending.contains(request_id@));
                    est_conn = true;
                }
                i = i + 1;
            }
        }
        let mut pen_conn = false;
        if let Some(list) = self.pending_outbound_requests.get(peer) {
            let waiting = pending_as_slice(list);
            let mut i: usize = 0;
            while i < waiting.len()
                invariant
                    i <= waiting@.len(),
                    waiting@.map_values(|r: RequestProtocol| r@) == self@.waiting_for(peer@),
                    pen_conn == exists|k: int|
                        0 <= k < i && (#[trigger] self@.waiting_for(peer@)[k]).request_id
                            == request_id@,
                decreases waiting@.len() - i,
            {
                if waiting[i].request_id.0 == request_id.0 {
                    assert(self@.waiting_for(peer@)[i as int].request_id == request_id@);
                    pen_conn = true;
                }
                i = i + 1;
            }
        }
        est_conn || pen_conn
    }

    /// Takes the request `request` off the connection `connection` to `peer`:
    /// it no longer waits for a response there. Returns whether it did wait on
    /// that connection.
    fn remove_pending_inbound_response(
        &mut self,
        peer: &PeerId,
        connection: ConnectionId,
        request: &RequestId,
    ) -> (removed: bool)
        requires
            old(self).wf(),
        ensures
            final(self).wf(),
            final(self).spec_config() == old(self).spec_config(),
            final(self)@ == old(self)@.settle(peer@, connection, request@),
            removed == (old(self)@.knows_connection(peer@, connection) && old(self)@.pending_on(
                peer@,
                connection,
            ).contains(request@)),
    {
        broadcast use vstd::std_specs::hash::group_hash_axioms;

        let found = match self.connected.get(peer) {
            Some(list) => find_connection(list, connection),
            None => None,
        };
        match found {
            Some(ix) => {
                let mut connections = self.connected.remove(peer).unwrap();
                let ghost before = connections_in(connections);
                let mut conn = conns_remove(&mut connections, ix);
                let ghost conn_before = conn@;
                let removed = conn.pending_inbound_responses.remove(&request.0);
                let ghost conn_after = conn;
                conns_insert(&mut connections, ix, conn);
                proof {
                    assert(connections_in(connections) =~= before.update(ix as int, conn_after));
                    assert(connections@ =~= old(self)@.connected[peer@].update(
                        ix as int,
                        conn_after@,
                    ));
                    assert(conn_after@ == (ConnectionView {
                        id: conn_before.id,
                        address: conn_before.address,
                        pending: conn_before.pending.remove(request@),
                    }));
                }
                self.connected.insert(peer.duplicate(), connections);
                proof {
                    let target = old(self)@.settle(peer@, connection, request@);
                    assert(self@.connected =~= target.connected);
                }
                removed
            },
            None => false,
        }
    }

    /// Appends one event to what waits for the swarm.
    fn report(&mut self, event: RequestResponseEvent)
        requires
            old(self).wf(),
        ensures
            final(self).wf(),
            final(self).spec_config() == old(self).spec_config(),
            final(self)@ == old(self)@.report(event@),
    {
        self.pending_events.push_back(BehaviourAction::GenerateEvent(event));
        assert(self@.pending_events =~= old(self)@.report(event@).pending_events);
    }

    /// Takes the news that the peer's address on a connection changed. The
    /// connection must be known.
    pub fn on_address_change(&mut self, change: AddressChange)
        requires
            old(self).wf(),
            old(self)@.knows_connection(change.peer_id@, change.connection_id),
        ensures
            final(self).wf(),
            final(self).spec_config() == old(self).spec_config(),
            final(self)@ == old(self)@.address_change(
                change.peer_id@,
                change.connection_id,
                change.new.spec_address(),
            ),
    {
        let AddressChange { peer_id, connection_id, new } = change;
        let new_address = new.into_address();
        let mut connections = self.connected.remove(&peer_id).unwrap();
        let ghost before = connections_in(connections);
        let ix = find_connection(&connections, connection_id).unwrap();
        let mut conn = conns_remove(&mut connections, ix);
        let ghost conn_before = conn@;
        conn.address = new_address;
        let ghost conn_after = conn;
        conns_insert(&mut connections, ix, conn);
        proof {
            assert(connections_in(connections) =~= before.update(ix as int, conn_after));
            assert(connections@ =~= old(self)@.connected[peer_id@].update(ix as int, conn_after@));
        }
        let ghost key = peer_id@;
        self.connected.insert(peer_id, connections);
        proof {
            let target = old(self)@.address_change(key, connection_id, new.spec_address());
            assert(self@.connected =~= target.connected);
        }
    }

    /// Takes the news that a connection was established. The first connection
    /// to a peer is handed every request that waited for the peer.
    pub fn on_connection_established(&mut self, established: ConnectionEstablished)
        requires
            old(self).wf(),
        ensures
            final(self).wf(),
            final(self).spec_config() == old(self).spec_config(),
            final(self)@ == old(self)@.connection_established(
                established.peer_id@,
                established.connection_id,
                established.endpoint.spec_address(),
                established.other_established as nat,
            ),
    {
        let ConnectionEstablished { peer_id, connection_id, endpoint, other_established } =
            established;
        let ghost peer = peer_id@;
        let ghost target = old(self)@.connection_established(
            peer,
            connection_id,
            endpoint.spec_address(),
            other_established as nat,
        );
        let address = endpoint.into_address();
        let mut connections = match self.connected.remove(&peer_id) {
            Some(list) => list,
            None => conns_new(),
        };
        assert(connections@ =~= old(self)@.connections_of(peer));
        conns_push(&mut connections, Connection::new(connection_id, address));
        assert(connections@ =~= old(self)@.connections_of(peer).push(
            ConnectionView { id: connection_id, address: endpoint.spec_address(), pending: Set::empty() },
        ));
        self.connected.insert(peer_id.duplicate(), connections);
        let ghost joined = self@;
        proof {
            assert(joined.connected =~= old(self)@.connected.insert(
                peer,
                old(self)@.connections_of(peer).push(
                    ConnectionView {
                        id: connection_id,
                        address: endpoint.spec_address(),
                        pending: Set::empty(),
                    },
                ),
            ));
        }
        if other_established == 0 {
            if let Some(pending) = self.pending_outbound_requests.remove(&peer_id) {
                let mut requests = pending_into_vec(pending);
                let ghost waiting = requests@.map_values(|r: RequestProtocol| r@);
                proof {
                    assert(waiting =~= old(self)@.pending_outbound[peer]);
                    assert(self@.pending_outbound =~= old(self)@.pending_outbound.remove(peer));
                    assert(self@.dispatch_all(peer, waiting) == target);
                    assert(waiting.subrange(0, waiting.len() as int) =~= waiting);
                }
                let mut i: usize = 0;
                let n = requests.len();
                while i < n
                    invariant
                        i <= n,
                        n == waiting.len(),
                        requests@.map_values(|r: RequestProtocol| r@) == waiting.subrange(
                            i as int,
                            n as int,
                        ),
                        self.wf(),
                        self.spec_config() == old(self).spec_config(),
                        self@.is_connected(peer),
                        peer == peer_id@,
                        self@.dispatch_all(peer, waiting.subrange(i as int, n as int)) == target,
                    decreases n - i,
                {
                    let ghost rest = waiting.subrange(i as int, n as int);
                    assert(requests@.len() == rest.len());
                    let request = requests.remove(0);
                    proof {
                        assert(request@ == rest[0]);
                        assert(rest.drop_first() =~= waiting.subrange(i + 1, n as int));
                        assert(requests@.map_values(|r: RequestProtocol| r@) =~= rest.drop_first());
                    }
                    let unsent = self.try_send_request(&peer_id, request);
                    assert(unsent is None);
                    proof {
                        let conns = self@.connected[peer];
                        assert(conns.len() > 0);
                    }
                    i = i + 1;
                }
                proof {
                    assert(waiting.subrange(n as int, n as int) =~= Seq::empty());
                }
            } else {
                assert(self@.pending_outbound =~= old(self)@.pending_outbound);
            }
        }
    }

    /// Takes the news that a connection was closed. Every request that
    /// waited on it for a response is reported as failed because the
    /// connection closed, each once, in no particular order. The connection
    /// must be known.
    pub fn on_connection_closed(&mut self, closed: ConnectionClosed)
        requires
            old(self).wf(),
            old(self)@.knows_connection(closed.peer_id@, closed.connection_id),
        ensures
            final(self).wf(),
            final(self).spec_config() == old(self).spec_config(),
            exists|order: Seq<u64>|
                #![trigger old(self)@.connection_closed(closed.peer_id@, closed.connection_id, order)]
                order.no_duplicates() && order.to_set() == old(self)@.pending_on(
                    closed.peer_id@,
                    closed.connection_id,
                ) && final(self)@ == old(self)@.connection_closed(
                    closed.peer_id@,
                    closed.connection_id,
                    order,
                ),
    {
        let ConnectionClosed { peer_id, connection_id, remaining_established: _ } = closed;
        let ghost peer = peer_id@;
        let mut connections = self.connected.remove(&peer_id).unwrap();
        let ghost before = connections_in(connections);
        let ix = find_connection(&connections, connection_id).unwrap();
        let connection = conns_remove(&mut connections, ix);
        assert(connections@ =~= old(self)@.connected[peer].remove(ix as int));
        if conns_as_slice(&connections).len() != 0 {
            self.connected.insert(peer_id.duplicate(), connections);
        }
        let ids = ids_of(&connection.pending_inbound_responses);
        let ghost order = ids@;
        proof {
            assert(self@.connected =~= old(self)@.connection_closed(
                peer,
                connection_id,
                order,
            ).connected);
        }
        let mut i: usize = 0;
        while i < ids.len()
            invariant
                i <= ids@.len(),
                ids@ == order,
                peer == peer_id@,
                self.wf(),
                self.spec_config() == old(self).spec_config(),
                self@ == (BehaviourState {
                    pending_events: old(self)@.pending_events + failures_of(
                        peer,
                        order.subrange(0, i as int),
                        OutboundFailure::ConnectionClosed,
                    ),
                    ..old(self)@.connection_closed(peer, connection_id, order)
                }),
            decreases ids@.len() - i,
        {
            let ghost so_far = self@.pending_events;
            self.report(
                RequestResponseEvent::OutboundFailure {
                    peer: peer_id.duplicate(),
                    request_id: RequestId(ids[i]),
                    error: OutboundFailure::ConnectionClosed,
                },
            );
            proof {
                assert(self@.pending_events =~= old(self)@.pending_events + failures_of(
                    peer,
                    order.subrange(0, i + 1),
                    OutboundFailure::ConnectionClosed,
                ));
            }
            i = i + 1;
        }
        proof {
            assert(order.subrange(0, order.len() as int) =~= order);
        }
    }

    /// Takes the news that dialing failed. Every request that waited for a
    /// connection to the peer is reported as failed, in the order in which the
    /// requests were made; none is tried again.
    pub fn on_dial_failure(&mut self, failure: DialFailure)
        requires
            old(self).wf(),
        ensures
            final(self).wf(),
            final(self).spec_config() == old(self).spec_config(),
            final(self)@ == old(self)@.dial_failure(crate::peer::address::opt_peer(failure.peer_id)),
    {
        if let Some(peer_id) = failure.peer_id {
            let ghost peer = peer_id@;
            if let Some(pending) = self.pending_outbound_requests.remove(&peer_id) {
                let requests = pending_as_vec_ids(pending);
                let ghost order = requests@;
                proof {
                    assert(order =~= old(self)@.pending_outbound[peer].map_values(
                        |r: RequestView| r.request_id,
                    ));
                    assert(self@.pending_outbound =~= old(self)@.pending_outbound.remove(peer));
                }
                proof {
                    assert(order.subrange(0, 0) =~= Seq::empty());
                    assert(self@.pending_events =~= old(self)@.pending_events + failures_of(
                        peer,
                        order.subrange(0, 0),
                        OutboundFailure::DialFailure,
                    ));
                }
                let mut i: usize = 0;
                while i < requests.len()
                    invariant
                        i <= requests@.len(),
                        requests@ == order,
                        peer == peer_id@,
                        self.wf(),
                        self.spec_config() == old(self).spec_config(),
                        self@ == (BehaviourState {
                            pending_events: old(self)@.pending_events + failures_of(
                                peer,
                                order.subrange(0, i as int),
                                OutboundFailure::DialFailure,
                            ),
                            pending_outbound: old(self)@.pending_outbound.remove(peer),
                            ..old(self)@
                        }),
                    decreases requests@.len() - i,
                {
                    self.report(
                        RequestResponseEvent::OutboundFailure {
                            peer: peer_id.duplicate(),
                            request_id: RequestId(requests[i]),
                            error: OutboundFailure::DialFailure,
                        },
                    );
                    proof {
                        assert(self@.pending_events =~= old(self)@.pending_events + failures_of(
                            peer,
                            order.subrange(0, i + 1),
                            OutboundFailure::DialFailure,
                        ));
                    }
                    i = i + 1;
                }
                proof {
                    assert(order.subrange(0, order.len() as int) =~= order);
                }
            } else {
                assert(self@.pending_outbound =~= old(self)@.pending_outbound);
            }
        }
    }

    /// The addresses to try when `maybe_peer` is dialed: those of the
    /// connections to the peer, then those that were added for it. Without a
    /// peer there are none.
    pub fn handle_pending_outbound_connection(&self, maybe_peer: Option<&PeerId>) -> (addresses: Vec<
        Multiaddr,
    >)
        requires
            self.wf(),
        ensures
            addresses@.map_values(|a: Multiaddr| a@) == match maybe_peer {
                Some(peer) => self@.known_addresses(peer@),
                None => Seq::empty(),
            },
    {
        let mut addresses: Vec<Multiaddr> = Vec::new();
        let peer = match maybe_peer {
            None => {
                assert(addresses@.map_values(|a: Multiaddr| a@) =~= Seq::empty());
                return addresses;
            },
            Some(peer) => peer,
        };
        if let Some(list) = self.connected.get(peer) {
            let connections = conns_as_slice(list);
            let ghost views = self@.connections_of(peer@);
            assert(views =~= connections@.map_values(|c: Connection| c@));
            let mut i: usize = 0;
            while i < connections.len()
                invariant
                    i <= connections@.len(),
                    views == connections@.map_values(|c: Connection| c@),
                    addresses@.map_values(|a: Multiaddr| a@) == connection_addresses(
                        views.subrange(0, i as int),
                    ),
                decreases connections@.len() - i,
            {
                proof {
                    assert(views.subrange(0, i + 1).drop_last() =~= views.subrange(0, i as int));
                }
                if let Some(address) = &connections[i].address {
                    addresses.push(address.duplicate());
                    assert(addresses@.map_values(|a: Multiaddr| a@) =~= connection_addresses(
                        views.subrange(0, i as int),
                    ).push(address@));
                }
                i = i + 1;
            }
            assert(views.subrange(0, views.len() as int) =~= views);
        } else {
            assert(addresses@.map_values(|a: Multiaddr| a@) =~= Seq::empty());
        }
        let ghost front = addresses@.map_values(|a: Multiaddr| a@);
        assert(front == connection_addresses(self@.connections_of(peer@)));
        if let Some(list) = self.addresses.get(peer) {
            let more = addrs_as_slice(list);
            let ghost added = self@.addresses_of(peer@);
            assert(added =~= more@.map_values(|a: Multiaddr| a@));
            let mut i: usize = 0;
            while i < more.len()
                invariant
                    i <= more@.len(),
                    added == more@.map_values(|a: Multiaddr| a@),
                    addresses@.map_values(|a: Multiaddr| a@) == front + added.subrange(0, i as int),
                decreases more@.len() - i,
            {
                addresses.push(more[i].duplicate());
                proof {
                    assert(added[i as int] == more@[i as int]@);
                    let so_far = front + added.subrange(0, i as int);
                    assert(addresses@.map_values(|a: Multiaddr| a@) =~= so_far.push(added[i as int]));
                    assert(so_far.push(added[i as int]) =~= front + added.subrange(0, i + 1));
                }
                i = i + 1;
            }
            assert(added.subrange(0, added.len() as int) =~= added);
        } else {
            assert(addresses@.map_values(|a: Multiaddr| a@) =~= front + self@.addresses_of(peer@));
        }
        addresses
    }

    /// Takes what the handler of a connection tells. A response, a timeout
    /// and a failed negotiation each end the wait of their request on the
    /// connection and are reported, one event per outcome.
    pub fn on_connection_handler_event(
        &mut self,
        peer: PeerId,
        connection: ConnectionId,
        event: RequestResponseHandlerEvent,
    )
        requires
            old(self).wf(),
        ensures
            final(self).wf(),
            final(self).spec_config() == old(self).spec_config(),
            final(self)@ == old(self)@.handler_event(peer@, connection, event@),
    {
        match event {
            RequestResponseHandlerEvent::Response { request_id, response } => {
                let _ = self.remove_pending_inbound_response(&peer, connection, &request_id);
                let message = RequestResponseMessage::Response { request_id, response };
                self.report(RequestResponseEvent::Message { peer, message });
            },
            RequestResponseHandlerEvent::OutboundTimeout(request_id) => {
                let _ = self.remove_pending_inbound_response(&peer, connection, &request_id);
                self.report(
                    RequestResponseEvent::OutboundFailure {
                        peer,
                        request_id,
                        error: OutboundFailure::Timeout,
                    },
                );
            },
            RequestResponseHandlerEvent::InboundTimeout => {
                self.report(
                    RequestResponseEvent::InboundFailure { peer, error: InboundFailure::Timeout },
                );
            },
            RequestResponseHandlerEvent::OutboundUnsupportedProtocols(request_id) => {
                let _ = self.remove_pending_inbound_response(&peer, connection, &request_id);
                self.report(
                    RequestResponseEvent::OutboundFailure {
                        peer,
                        request_id,
                        error: OutboundFailure::UnsupportedProtocols,
                    },
                );
            },
            RequestResponseHandlerEvent::InboundUnsupportedProtocols => {
                self.report(
                    RequestResponseEvent::InboundFailure {
                        peer,
                        error: InboundFailure::UnsupportedProtocols,
                    },
                );
            },
        }
    }

    /// The handler for a connection that the local node has established: it
    /// gets the timeouts of the behaviour's configuration and has nothing to
    /// do yet.
    pub fn handle_established_outbound_connection(&self) -> (handler: RequestResponseHandler)
        ensures
            handler@ == (HandlerState {
                keep_alive_timeout: self.spec_config().connection_keep_alive,
                substream_timeout: self.spec_config().request_timeout,
                keep_alive: KeepAlive::Yes,
                pending_error: None,
                pending_events: Seq::empty(),
                outbound: Seq::empty(),
            }),
    {
        RequestResponseHandler::new(self.config.connection_keep_alive, self.config.request_timeout)
    }

    /// Whether the behaviour has an answer to `event`: it has none to the
    /// closing or the address change of a connection that it does not know.
    pub open spec fn accepts(&self, event: FromSwarm) -> bool {
        match event {
            FromSwarm::ConnectionClosed(closed) => self@.knows_connection(
                closed.peer_id@,
                closed.connection_id,
            ),
            FromSwarm::AddressChange(change) => self@.knows_connection(
                change.peer_id@,
                change.connection_id,
            ),
            _ => true,
        }
    }

    /// Whether `after` is a state that follows from `before` by `event`.
    pub open spec fn follows(before: BehaviourState, event: FromSwarm, after: BehaviourState) -> bool {
        match event {
            FromSwarm::ConnectionEstablished(established) => after == before.connection_established(
                established.peer_id@,
                established.connection_id,
                established.endpoint.spec_address(),
                established.other_established as nat,
            ),
            FromSwarm::ConnectionClosed(closed) => exists|order: Seq<u64>|
                #![trigger before.connection_closed(closed.peer_id@, closed.connection_id, order)]
                order.no_duplicates() && order.to_set() == before.pending_on(
                    closed.peer_id@,
                    closed.connection_id,
                ) && after == before.connection_closed(closed.peer_id@, closed.connection_id, order),
            FromSwarm::AddressChange(change) => after == before.address_change(
                change.peer_id@,
                change.connection_id,
                change.new.spec_address(),
            ),
            FromSwarm::DialFailure(failure) => after == before.dial_failure(
                crate::peer::address::opt_peer(failure.peer_id),
            ),
            FromSwarm::Other => after == before,
        }
    }

    /// Takes what the swarm tells: connections that come and go, addresses
    /// that change, dials that fail. Anything else changes nothing.
    pub fn on_swarm_event(&mut self, event: FromSwarm)
        requires
            old(self).wf(),
            old(self).accepts(event),
        ensures
            final(self).wf(),
            final(self).spec_config() == old(self).spec_config(),
            Self::follows(old(self)@, event, final(self)@),
    {
        match event {
            FromSwarm::ConnectionEstablished(connection_established) => {
                self.on_connection_established(connection_established)
            },
            FromSwarm::ConnectionClosed(connection_closed) => {
                self.on_connection_closed(connection_closed)
            },
            FromSwarm::AddressChange(address_change) => self.on_address_change(address_change),
            FromSwarm::DialFailure(dial_failure) => self.on_dial_failure(dial_failure),
            FromSwarm::Other => {},
        }
    }

    /// Hands out the oldest action that waits for the swarm, if there is one.
    pub fn poll(&mut self) -> (action: Option<BehaviourAction>)
        requires
            old(self).wf(),
        ensures
            final(self).wf(),
            final(self).spec_config() == old(self).spec_config(),
            match action {
                Some(a) => old(self)@.pending_events.len() > 0 && a@ == old(self)@.pending_events[0]
                    && final(self)@ == (BehaviourState {
                    pending_events: old(self)@.pending_events.drop_first(),
                    ..old(self)@
                }),
                None => old(self)@.pending_events.len() == 0 && final(self)@ == old(self)@,
            },
    {
        match self.pending_events.pop_front() {
            Some(action) => {
                assert(self@.pending_events =~= old(self)@.pending_events.drop_first());
                Some(action)
            },
            None => {
                if queue_capacity(&self.pending_events) > EMPTY_QUEUE_SHRINK_THRESHOLD {
                    queue_shrink(&mut self.pending_events);
                }
                None
            },
        }
    }
}

/// The position of the first connection with the identifier `id`.
fn find_connection(list: &ConnectionList, id: ConnectionId) -> (at: Option<usize>)
    ensures
        match at {
            Some(i) => is_first_connection(list@, id, i as int) && i == first_connection(list@, id)
                && has_connection(list@, id) && i < connections_in(*list).len(),
            None => !has_connection(list@, id),
        },
{
    let connections = conns_as_slice(list);
    let mut i: usize = 0;
    while i < connections.len()
        invariant
            i <= connections@.len(),
            connections@ == connections_in(*list),
            forall|k: int| 0 <= k < i ==> (#[trigger] list@[k]).id != id,
        decreases connections@.len() - i,
    {
        if connections[i].id == id {
            proof {
                assert(list@[i as int].id == id);
                assert(is_first_connection(list@, id, i as int));
                let j = first_connection(list@, id);
                assert(is_first_connection(list@, id, j));
                assert(j == i);
            }
            return Some(i);
        }
        i = i + 1;
    }
    None
}

/// The members of a set of identifiers, each once, in the order in which the
/// set hands them out.
fn ids_of(set: &HashSet<u64>) -> (ids: Vec<u64>)
    ensures
        ids@.to_set() == set@,
        ids@.no_duplicates(),
{
    broadcast use vstd::std_specs::hash::group_hash_axioms;

    let mut ids: Vec<u64> = Vec::new();
    for id in it: set.iter()
        invariant
            it.seq() == spec_hash_keys_iter(set).remaining(),
            ids@ == it.seq().unref().subrange(0, it.index() as int),
    {
        ids.push(*id);
        assert(ids@ =~= it.seq().unref().subrange(0, it.index() + 1));
    }
    proof {
        let all = spec_hash_keys_iter(set).remaining();
        assert(ids@ =~= all.unref());
        assert forall|i: int, j: int|
            0 <= i < ids@.len() && 0 <= j < ids@.len() && i != j implies ids@[i] != ids@[j] by {
            assert(all[i] != all[j]);
        }
    }
    ids
}

/// The identifiers of the requests of a list, in order.
fn pending_as_vec_ids(list: PendingList) -> (ids: Vec<u64>)
    ensures
        ids@ == list@.map_values(|r: RequestView| r.request_id),
{
    let requests = pending_as_slice(&list);
    let mut ids: Vec<u64> = Vec::new();
    let mut i: usize = 0;
    while i < requests.len()
        invariant
            i <= requests@.len(),
            requests@ == requests_in(list),
            ids@ == list@.map_values(|r: RequestView| r.request_id).subrange(0, i as int),
        decreases requests@.len() - i,
    {
        ids.push(requests[i].request_id.0);
        assert(ids@ =~= list@.map_values(|r: RequestView| r.request_id).subrange(0, i + 1));
        i = i + 1;
    }
    assert(ids@ =~= list@.map_values(|r: RequestView| r.request_id));
    ids
}

/// Dropping the addresses equal to `address` and then taking the bytes of
/// each gives what dropping the equal byte strings gives.
proof fn lemma_filter_views(addrs: Seq<Multiaddr>, address: Seq<u8>, bytes: spec_fn(Multiaddr) -> Seq<u8>)
    requires
        forall|a: Multiaddr| #[trigger] bytes(a) == a@,
    ensures
        addrs.filter(other_than(address)).map_values(bytes) == addrs.map_values(bytes).filter(
            other_bytes_than(address),
        ),
    decreases addrs.len(),
{
    let keep = other_than(address);
    let keep_bytes = other_bytes_than(address);
    reveal(Seq::filter);
    if addrs.len() == 0 {
        assert(addrs.filter(keep).map_values(bytes) =~= addrs.map_values(bytes).filter(keep_bytes));
    } else {
        lemma_filter_views(addrs.drop_last(), address, bytes);
        assert(addrs.map_values(bytes).drop_last() =~= addrs.drop_last().map_values(bytes));
        assert(addrs.map_values(bytes).last() == addrs.last()@);
        assert(addrs.filter(keep).map_values(bytes) =~= addrs.map_values(bytes).filter(keep_bytes));
    }
}

/// The room that a queue has, by `VecDeque::capacity`. It depends on what
/// the allocator gave, so nothing is stated of it.
#[verifier::external_body]
pub(crate) fn queue_capacity<T>(queue: &VecDeque<T>) -> usize {
    queue.capacity()
}

/// Gives unused room back with `VecDeque::shrink_to_fit`. The items stay.
#[verifier::external_body]
pub(crate) fn queue_shrink<T>(queue: &mut VecDeque<T>)
    ensures
        final(queue)@ == old(queue)@,
{
    queue.shrink_to_fit()
}

} // verus!
