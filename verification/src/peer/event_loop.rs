//! The decisions of the loop that owns the swarm: what to do with each
//! command of a caller and with each event of the network.
//!
//! The loop itself waits for commands and events and carries the actions
//! out; here stands what it decides in between. A caller's reply channel is
//! carried through as a value of a type that the loop chooses.

use crate::peer::address::{multiaddr_with_peer, Multiaddr, PeerId};
use crate::peer::behaviour::{
    BehaviourState, ConnectedPoint, OutboundFailure, RequestId, RequestResponse, RequestResponseEvent,
    RequestResponseMessage,
};
use crate::peer::peer_map::PeerMap;
use crate::peer::protocol::{names_of, ProtocolInfo, RequestPayload, ResponsePayload};
use std::collections::HashMap;
use vstd::prelude::*;
use vstd::std_specs::hash::spec_keys_iter;
use vstd::std_specs::iter::IteratorSpec;

verus! {

/// A request whose outcome is still awaited, with the channel for the reply.
#[derive(Debug)]
pub struct PendingRequest<R> {
    pub sender: R,
}

/// Why a peer could not be dialed.
#[derive(Debug)]
pub enum DialError<E> {
    /// The address and the peer do not make an address that can be dialed.
    InvalidAddress,
    /// The swarm or the transport refused or failed, with its own error.
    Swarm(E),
}

/// What a caller asks of the loop.
#[derive(Debug)]
#[allow(inconsistent_fields)]
pub enum Command<D, R> {
    /// Connect to `peer_id` at `peer_addr` and reply on `sender`.
    Dial { peer_id: PeerId, peer_addr: Multiaddr, sender: D },
    /// Send `payload` to `peer_id` over `protocol` and reply on `sender`.
    Request { peer_id: PeerId, protocol: ProtocolInfo, payload: RequestPayload, sender: R },
    /// Stop taking commands.
    Shutdown,
}

/// What the swarm reports to the loop.
#[derive(Debug)]
#[allow(inconsistent_fields)]
pub enum SwarmEvent<E> {
    /// The request/response behaviour reports an outcome.
    Behaviour(RequestResponseEvent),
    /// A connection to `peer_id` stands.
    ConnectionEstablished { peer_id: PeerId, endpoint: ConnectedPoint },
    /// An outgoing connection could not be made.
    OutgoingConnectionError { peer_id: Option<PeerId>, error: E },
    /// Anything that is only written to the log.
    Other,
}

/// What the loop has to carry out.
#[derive(Debug)]
#[allow(inconsistent_fields)]
pub enum LoopAction<D, R, E> {
    /// Nothing.
    Nothing,
    /// Send the outcome of a dial to the caller that asked for it.
    ReplyDial { sender: D, result: Result<(), DialError<E>> },
    /// Send the outcome of a request to the caller that made it.
    ReplyRequest { sender: R, result: Result<ResponsePayload, OutboundFailure> },
    /// Have the swarm dial `address` and tell the outcome with `sender`.
    Dial { peer_id: PeerId, address: Multiaddr, sender: D },
    /// Close the command channel: commands already sent are still taken.
    CloseCommands,
    /// Leave the loop.
    Stop,
}

/// What the loop waited for and got.
#[derive(Debug)]
pub enum LoopInput<D, R, E> {
    /// The swarm reported an event.
    Event(SwarmEvent<E>),
    /// A command arrived, or the command channel is closed and empty.
    Command(Option<Command<D, R>>),
}

/// What the loop remembers, apart from how it is stored.
pub struct LoopState<D, R> {
    /// The reply channel of the dial in flight to each peer.
    pub pending_dial: Map<Seq<u8>, D>,
    /// The reply channel of each request whose outcome is awaited.
    pub pending_requests: Map<u64, R>,
}

impl<D, R> LoopState<D, R> {
    /// Whether every request whose outcome is awaited has an identifier below
    /// `bound`. With the next identifier of the behaviour for `bound`, the next
    /// request cannot take the place of one that is still awaited.
    pub open spec fn ids_below(self, bound: nat) -> bool {
        forall|id: u64| self.pending_requests.dom().contains(id) ==> id < bound
    }

    /// The state without the request `id`.
    pub open spec fn settle(self, id: u64) -> Self {
        LoopState { pending_requests: self.pending_requests.remove(id), ..self }
    }

    /// The state without the dial to `peer`.
    pub open spec fn dial_done(self, peer: Seq<u8>) -> Self {
        LoopState { pending_dial: self.pending_dial.remove(peer), ..self }
    }
}

/// The bookkeeping of the loop: which dials and which requests are under way.
#[derive(Debug)]
pub struct EventLoop<D, R> {
    pending_dial: PeerMap<D>,
    pending_requests: HashMap<u64, PendingRequest<R>>,
}

impl<D, R> View for EventLoop<D, R> {
    type V = LoopState<D, R>;

    closed spec fn view(&self) -> LoopState<D, R> {
        LoopState {
            pending_dial: self.pending_dial@,
            pending_requests: self.pending_requests@.map_values(|p: PendingRequest<R>| p.sender),
        }
    }
}

impl<D, R> EventLoop<D, R> {
    /// Whether the bookkeeping is what it should be.
    pub closed spec fn wf(&self) -> bool {
        self.pending_dial.wf()
    }

    /// Whether the loop has an answer to `event`: the outcome of a request
    /// can only be delivered while the request is awaited.
    pub open spec fn accepts<E>(&self, event: SwarmEvent<E>) -> bool {
        match event {
            SwarmEvent::Behaviour(RequestResponseEvent::OutboundFailure { request_id, .. }) => self@.pending_requests.dom().contains(
                request_id@,
            ),
            SwarmEvent::Behaviour(
                RequestResponseEvent::Message {
                    message: RequestResponseMessage::Response { request_id, .. },
                    ..
                },
            ) => self@.pending_requests.dom().contains(request_id@),
            _ => true,
        }
    }

    /// Whether `after` and `action` are what follows from `event` in the state
    /// `before`.
    pub open spec fn event_outcome<E>(
        before: LoopState<D, R>,
        event: SwarmEvent<E>,
        after: LoopState<D, R>,
        action: LoopAction<D, R, E>,
    ) -> bool {
        match event {
            SwarmEvent::Behaviour(RequestResponseEvent::OutboundFailure { request_id, error, .. }) => after
                == before.settle(request_id@) && action == (LoopAction::<D, R, E>::ReplyRequest {
                sender: before.pending_requests[request_id@],
                result: Err(error),
            }),
            SwarmEvent::Behaviour(
                RequestResponseEvent::Message {
                    message: RequestResponseMessage::Response { request_id, response },
                    ..
                },
            ) => after == before.settle(request_id@) && action
                == (LoopAction::<D, R, E>::ReplyRequest {
                sender: before.pending_requests[request_id@],
                result: Ok(response),
            }),
            SwarmEvent::ConnectionEstablished { peer_id, endpoint } => if endpoint is Dialer
                && before.pending_dial.dom().contains(peer_id@) {
                after == before.dial_done(peer_id@) && action == (LoopAction::<D, R, E>::ReplyDial {
                    sender: before.pending_dial[peer_id@],
                    result: Ok(()),
                })
            } else {
                after == before && action == LoopAction::<D, R, E>::Nothing
            },
            SwarmEvent::OutgoingConnectionError { peer_id: Some(peer_id), error } => if before.pending_dial.dom().contains(
                peer_id@,
            ) {
                after == before.dial_done(peer_id@) && action == (LoopAction::<D, R, E>::ReplyDial {
                    sender: before.pending_dial[peer_id@],
                    result: Err(DialError::Swarm(error)),
                })
            } else {
                after == before && action == LoopAction::<D, R, E>::Nothing
            },
            _ => after == before && action == LoopAction::<D, R, E>::Nothing,
        }
    }

    /// Whether the behaviour `after` and `action` are what follows from the
    /// command to dial `peer_id` at `peer_addr`.
    pub open spec fn dial_outcome<E>(
        before: BehaviourState,
        peer_id: PeerId,
        peer_addr: Multiaddr,
        sender: D,
        connected: bool,
        after: BehaviourState,
        action: LoopAction<D, R, E>,
    ) -> bool {
        if connected {
            after == before && action == (LoopAction::<D, R, E>::ReplyDial { sender, result: Ok(()) })
        } else {
            after == before.add_address(peer_id@, peer_addr@) && match action {
                LoopAction::Dial { peer_id: p, address, sender: s } => p@ == peer_id@ && s == sender
                    && multiaddr_with_peer(peer_addr@, peer_id@) == Some(address@),
                LoopAction::ReplyDial { sender: s, result: Err(DialError::InvalidAddress) } => s
                    == sender && multiaddr_with_peer(peer_addr@, peer_id@) is None,
                _ => false,
            }
        }
    }

    /// Whether the states `after` and `action` are what follows from
    /// `command`.
    pub open spec fn command_outcome<E>(
        before: LoopState<D, R>,
        behaviour_before: BehaviourState,
        command: Command<D, R>,
        connected: bool,
        after: LoopState<D, R>,
        behaviour_after: BehaviourState,
        action: LoopAction<D, R, E>,
    ) -> bool {
        match command {
            Command::Dial { peer_id, peer_addr, sender } => after == before && Self::dial_outcome(
                behaviour_before,
                peer_id,
                peer_addr,
                sender,
                connected,
                behaviour_after,
                action,
            ),
            Command::Request { peer_id, protocol, payload, sender } => action
                == LoopAction::<D, R, E>::Nothing && !before.pending_requests.dom().contains(
                behaviour_before.next_request_id as u64,
            ) && behaviour_after == behaviour_before.send_request(
                peer_id@,
                seq![protocol@],
                payload@,
            ) && after == (LoopState {
                pending_requests: before.pending_requests.insert(
                    behaviour_before.next_request_id as u64,
                    sender,
                ),
                ..before
            }),
            Command::Shutdown => action == LoopAction::<D, R, E>::CloseCommands && after == before
                && behaviour_after == behaviour_before,
        }
    }

    /// A loop with nothing under way.
    pub fn new() -> (event_loop: Self)
        ensures
            event_loop.wf(),
            event_loop@ == (LoopState::<D, R> {
                pending_dial: Map::empty(),
                pending_requests: Map::empty(),
            }),
            event_loop@.ids_below(0),
    {
        let event_loop = EventLoop { pending_dial: PeerMap::new(), pending_requests: HashMap::new() };
        assert(event_loop@.pending_requests =~= Map::empty());
        event_loop
    }

    /// Whether the outcome of the request `id` is awaited.
    pub fn has_pending_request(&self, id: &RequestId) -> (awaited: bool)
        requires
            self.wf(),
        ensures
            awaited == self@.pending_requests.dom().contains(id@),
    {
        broadcast use vstd::std_specs::hash::group_hash_axioms;

        self.pending_requests.contains_key(&id.value())
    }

    /// Whether every request whose outcome is awaited has an identifier below
    /// `bound`.
    pub fn awaits_only_below(&self, bound: &RequestId) -> (below: bool)
        requires
            self.wf(),
        ensures
            below == self@.ids_below(bound@ as nat),
    {
        broadcast use vstd::std_specs::hash::group_hash_axioms;

        let limit = bound.value();
        for id in it: self.pending_requests.keys()
            invariant
                it.seq() == spec_keys_iter(&self.pending_requests).remaining(),
                limit == bound@,
                forall|k: int| 0 <= k < it.index() ==> *(#[trigger] it.seq()[k]) < limit,
        {
            if *id >= limit {
                proof {
                    let keys = spec_keys_iter(&self.pending_requests).remaining();
                    assert(keys.unref()[it.index()] == *id);
                    assert(keys.unref().to_set().contains(*id));
                    assert(self@.pending_requests.dom().contains(*id));
                }
                return false;
            }
        }
        proof {
            let keys = spec_keys_iter(&self.pending_requests).remaining();
            assert forall|key: u64| self@.pending_requests.dom().contains(key) implies key
                < limit by {
                assert(keys.unref().to_set().contains(key));
                let k = choose|k: int| 0 <= k < keys.unref().len() && keys.unref()[k] == key;
                assert(*keys[k] == key);
            }
        }
        true
    }

    /// Whether a dial to `peer` is in flight.
    pub fn has_pending_dial(&self, peer: &PeerId) -> (dialing: bool)
        requires
            self.wf(),
        ensures
            dialing == self@.pending_dial.dom().contains(peer@),
    {
        self.pending_dial.contains_key(peer)
    }

    /// Takes the request `id` off the books and hands back its reply channel.
    fn take_request(&mut self, id: u64) -> (sender: R)
        requires
            old(self).wf(),
            old(self)@.pending_requests.dom().contains(id),
        ensures
            final(self).wf(),
            final(self)@ == old(self)@.settle(id),
            sender == old(self)@.pending_requests[id],
            forall|bound: nat| #[trigger]
                old(self)@.ids_below(bound) ==> final(self)@.ids_below(bound),
    {
        broadcast use vstd::std_specs::hash::group_hash_axioms;

        let pending = self.pending_requests.remove(&id);
        assert(self@.pending_requests =~= old(self)@.pending_requests.remove(id));
        pending.unwrap().sender
    }

    /// Decides what follows from an event of the swarm. The outcome of a
    /// request goes to the caller that made the request, and the request is
    /// no longer awaited. A connection that the local node dialed, and a
    /// failed outgoing connection, settle the dial in flight to that peer, if
    /// there is one. Every other event changes nothing.
    pub fn handle_event<E>(&mut self, event: SwarmEvent<E>) -> (action: LoopAction<D, R, E>)
        requires
            old(self).wf(),
            old(self).accepts(event),
        ensures
            final(self).wf(),
            Self::event_outcome(old(self)@, event, final(self)@, action),
            forall|bound: nat| #[trigger]
                old(self)@.ids_below(bound) ==> final(self)@.ids_below(bound),
    {
        match event {
            SwarmEvent::Behaviour(result) => match result {
                RequestResponseEvent::OutboundFailure { request_id, error, peer: _ } => {
                    let sender = self.take_request(request_id.value());
                    LoopAction::ReplyRequest { sender, result: Err(error) }
                },
                RequestResponseEvent::Message {
                    peer: _,
                    message: RequestResponseMessage::Response { request_id, response },
                } => {
                    let sender = self.take_request(request_id.value());
                    LoopAction::ReplyRequest { sender, result: Ok(response) }
                },
                RequestResponseEvent::InboundFailure { .. } => LoopAction::Nothing,
            },
            SwarmEvent::ConnectionEstablished { peer_id, endpoint } => {
                if endpoint.is_dialer() {
                    if let Some(sender) = self.pending_dial.remove(&peer_id) {
                        return LoopAction::ReplyDial { sender, result: Ok(()) };
                    }
                    assert(self@.pending_dial =~= old(self)@.pending_dial);
                }
                LoopAction::Nothing
            },
            SwarmEvent::OutgoingConnectionError { peer_id, error } => {
                if let Some(peer_id) = peer_id {
                    if let Some(sender) = self.pending_dial.remove(&peer_id) {
                        return LoopAction::ReplyDial {
                            sender,
                            result: Err(DialError::Swarm(error)),
                        };
                    }
                    assert(self@.pending_dial =~= old(self)@.pending_dial);
                }
                LoopAction::Nothing
            },
            SwarmEvent::Other => LoopAction::Nothing,
        }
    }

    /// Decides what follows from the command to dial `peer_id` at
    /// `peer_addr`, given whether the swarm is `connected` to the peer. To a
    /// connected peer the reply is success at once. Else the address is added
    /// for the peer and the swarm is to dial the address followed by the
    /// peer's identity. A second dial to a peer while one is in flight is
    /// left out: what it should do is not decided.
    pub fn handle_dial<E>(
        &mut self,
        behaviour: &mut RequestResponse,
        peer_id: PeerId,
        peer_addr: Multiaddr,
        sender: D,
        connected: bool,
    ) -> (action: LoopAction<D, R, E>)
        requires
            old(self).wf(),
            old(behaviour).wf(),
            connected || !old(self)@.pending_dial.dom().contains(peer_id@),
        ensures
            final(self).wf(),
            final(behaviour).wf(),
            final(behaviour).spec_config() == old(behaviour).spec_config(),
            final(self)@ == old(self)@,
            Self::dial_outcome(
                old(behaviour)@,
                peer_id,
                peer_addr,
                sender,
                connected,
                final(behaviour)@,
                action,
            ),
    {
        if connected {
            return LoopAction::ReplyDial { sender, result: Ok(()) };
        }
        behaviour.add_address(&peer_id, peer_addr.duplicate());
        match peer_addr.with_peer(&peer_id) {
            Some(address) => LoopAction::Dial { peer_id, address, sender },
            None => LoopAction::ReplyDial { sender, result: Err(DialError::InvalidAddress) },
        }
    }

    /// Decides what follows once the swarm has taken or refused a dial. A
    /// dial that was taken is in flight until the connection stands or fails;
    /// a refusal goes to the caller at once.
    pub fn on_dial_started<E>(&mut self, peer_id: PeerId, sender: D, outcome: Result<(), E>) -> (action:
        LoopAction<D, R, E>)
        requires
            old(self).wf(),
        ensures
            final(self).wf(),
            match outcome {
                Ok(_) => final(self)@ == (LoopState {
                    pending_dial: old(self)@.pending_dial.insert(peer_id@, sender),
                    ..old(self)@
                }) && action == LoopAction::<D, R, E>::Nothing,
                Err(error) => final(self)@ == old(self)@ && action
                    == (LoopAction::<D, R, E>::ReplyDial {
                    sender,
                    result: Err(DialError::Swarm(error)),
                }),
            },
            forall|bound: nat| #[trigger]
                old(self)@.ids_below(bound) ==> final(self)@.ids_below(bound),
    {
        match outcome {
            Ok(_) => {
                self.pending_dial.insert(peer_id, sender);
                LoopAction::Nothing
            },
            Err(error) => LoopAction::ReplyDial { sender, result: Err(DialError::Swarm(error)) },
        }
    }

    /// Decides what follows from the command to send a request: the request
    /// goes to the behaviour, and its outcome is awaited under the identifier
    /// that the behaviour gave it.
    pub fn handle_request(
        &mut self,
        behaviour: &mut RequestResponse,
        peer_id: PeerId,
        protocol: ProtocolInfo,
        payload: RequestPayload,
        sender: R,
    ) -> (request_id: RequestId)
        requires
            old(self).wf(),
            old(behaviour).wf(),
            old(behaviour)@.next_request_id < u64::MAX,
            old(self)@.ids_below(old(behaviour)@.next_request_id),
        ensures
            final(self).wf(),
            final(behaviour).wf(),
            final(behaviour).spec_config() == old(behaviour).spec_config(),
            request_id@ == old(behaviour)@.next_request_id,
            !old(self)@.pending_requests.dom().contains(request_id@),
            final(behaviour)@.next_request_id == old(behaviour)@.next_request_id + 1,
            final(self)@.ids_below(final(behaviour)@.next_request_id),
            final(behaviour)@ == old(behaviour)@.send_request(peer_id@, seq![protocol@], payload@),
            final(self)@ == (LoopState {
                pending_requests: old(self)@.pending_requests.insert(request_id@, sender),
                ..old(self)@
            }),
    {
        broadcast use vstd::std_specs::hash::group_hash_axioms;

        let protocols = [protocol];
        assert(names_of(protocols@) =~= seq![protocol@]);
        let request_id = behaviour.send_request(&peer_id, protocols.as_slice(), payload);
        self.pending_requests.insert(request_id.value(), PendingRequest { sender });
        assert(self@.pending_requests =~= old(self)@.pending_requests.insert(request_id@, sender));
        request_id
    }

    /// Decides what follows from a command, given whether the swarm is
    /// `connected` to the peer that the command names.
    pub fn handle_command<E>(
        &mut self,
        behaviour: &mut RequestResponse,
        command: Command<D, R>,
        connected: bool,
    ) -> (action: LoopAction<D, R, E>)
        requires
            old(self).wf(),
            old(behaviour).wf(),
            command matches Command::Dial { peer_id, .. } ==> connected || !old(
                self,
            )@.pending_dial.dom().contains(peer_id@),
            command is Request ==> old(behaviour)@.next_request_id < u64::MAX && old(
                self,
            )@.ids_below(old(behaviour)@.next_request_id),
        ensures
            final(self).wf(),
            final(behaviour).wf(),
            final(behaviour).spec_config() == old(behaviour).spec_config(),
            old(self)@.ids_below(old(behaviour)@.next_request_id) ==> final(self)@.ids_below(
                final(behaviour)@.next_request_id,
            ),
            Self::command_outcome(
                old(self)@,
                old(behaviour)@,
                command,
                connected,
                final(self)@,
                final(behaviour)@,
                action,
            ),
    {
        match command {
            Command::Dial { peer_id, peer_addr, sender } => self.handle_dial(
                behaviour,
                peer_id,
                peer_addr,
                sender,
                connected,
            ),
            Command::Request { peer_id, protocol, payload, sender } => {
                let _ = self.handle_request(behaviour, peer_id, protocol, payload, sender);
                LoopAction::Nothing
            },
            Command::Shutdown => LoopAction::CloseCommands,
        }
    }

    /// Takes one turn of the loop: decides what follows from what the loop
    /// waited for. A closed and empty command channel ends the loop.
    pub fn run<E>(
        &mut self,
        behaviour: &mut RequestResponse,
        input: LoopInput<D, R, E>,
        connected: bool,
    ) -> (action: LoopAction<D, R, E>)
        requires
            old(self).wf(),
            old(behaviour).wf(),
            input matches LoopInput::Event(event) ==> old(self).accepts(event),
            input matches LoopInput::Command(Some(Command::Dial { peer_id, .. })) ==> connected
                || !old(self)@.pending_dial.dom().contains(peer_id@),
            input matches LoopInput::Command(Some(Command::Request { .. })) ==> old(
                behaviour,
            )@.next_request_id < u64::MAX && old(self)@.ids_below(
                old(behaviour)@.next_request_id,
            ),
        ensures
            final(self).wf(),
            final(behaviour).wf(),
            final(behaviour).spec_config() == old(behaviour).spec_config(),
            old(self)@.ids_below(old(behaviour)@.next_request_id) ==> final(self)@.ids_below(
                final(behaviour)@.next_request_id,
            ),
            match input {
                LoopInput::Event(event) => final(behaviour)@ == old(behaviour)@
                    && Self::event_outcome(old(self)@, event, final(self)@, action),
                LoopInput::Command(Some(command)) => Self::command_outcome(
                    old(self)@,
                    old(behaviour)@,
                    command,
                    connected,
                    final(self)@,
                    final(behaviour)@,
                    action,
                ),
                LoopInput::Command(None) => action == LoopAction::<D, R, E>::Stop && final(self)@
                    == old(self)@ && final(behaviour)@ == old(behaviour)@,
            },
    {
        match input {
            LoopInput::Event(event) => self.handle_event(event),
            LoopInput::Command(Some(command)) => self.handle_command(behaviour, command, connected),
            LoopInput::Command(None) => LoopAction::Stop,
        }
    }
}

} // verus!
