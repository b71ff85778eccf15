//! The facade of the peer node: what a caller's request for a protocol
//! exchange turns into, step by step.

use crate::peer::address::{Multiaddr, PeerId};
use crate::peer::behaviour::{
    BehaviourState, OutboundFailure, RequestResponse, RequestResponseConfig,
};
use crate::peer::event_loop::{Command, DialError};
use crate::peer::protocol::{ProtocolInfo, RequestPayload, ResponsePayload};
use vstd::prelude::*;

verus! {

/// Why a call for a protocol exchange failed.
#[derive(Debug)]
pub enum CallError<E> {
    /// The peer could not be dialed. No request was sent.
    Dial(DialError<E>),
    /// The request was sent and failed.
    Request(OutboundFailure),
    /// The call was told of something that it was not waiting for.
    OutOfOrder,
}

/// Where a call stands.
#[derive(Clone, Copy, Debug, PartialEq, Eq, Structural)]
pub enum CallStage {
    /// The dial is under way.
    AwaitingDial,
    /// The request is under way.
    AwaitingResponse,
    /// The call is over.
    Finished,
}

/// What came back from the loop.
#[derive(Debug)]
pub enum CallEvent<E> {
    /// The dial has ended.
    DialSettled(Result<(), DialError<E>>),
    /// The request has ended.
    RequestSettled(Result<ResponsePayload, OutboundFailure>),
}

/// What the call does next.
#[derive(Debug)]
pub enum CallStep<E> {
    /// Send the command to dial the peer and wait for its outcome.
    Dial { peer_id: PeerId, peer_addr: Multiaddr },
    /// Send the command to make the request and wait for its outcome.
    Request { peer_id: PeerId, protocol: ProtocolInfo, payload: RequestPayload },
    /// Return this to the caller.
    Done(Result<ResponsePayload, CallError<E>>),
}

/// The kind of a step.
pub enum StepKind {
    Dial,
    Request,
    Done,
}

impl<E> CallStep<E> {
    /// The kind of the step.
    pub open spec fn kind(self) -> StepKind {
        match self {
            CallStep::Dial { .. } => StepKind::Dial,
            CallStep::Request { .. } => StepKind::Request,
            CallStep::Done(_) => StepKind::Done,
        }
    }
}

/// A call, apart from how it is stored.
pub struct CallState {
    pub stage: CallStage,
    pub peer: Seq<u8>,
    pub protocol: Seq<u8>,
    pub payload: Seq<u8>,
}

impl CallState {
    /// The stage after an event.
    pub open spec fn next_stage<E>(self, event: CallEvent<E>) -> CallStage {
        match (self.stage, event) {
            (CallStage::AwaitingDial, CallEvent::DialSettled(Ok(_))) => CallStage::AwaitingResponse,
            _ => CallStage::Finished,
        }
    }

    /// The kind of step that answers an event.
    pub open spec fn next_kind<E>(self, event: CallEvent<E>) -> StepKind {
        match (self.stage, event) {
            (CallStage::AwaitingDial, CallEvent::DialSettled(Ok(_))) => StepKind::Request,
            _ => StepKind::Done,
        }
    }

    /// The kinds of the steps that answer a run of events, one for each.
    pub open spec fn kinds<E>(self, events: Seq<CallEvent<E>>) -> Seq<StepKind>
        decreases events.len(),
    {
        if events.len() == 0 {
            Seq::empty()
        } else {
            seq![self.next_kind(events[0])] + (CallState {
                stage: self.next_stage(events[0]),
                ..self
            }).kinds(events.drop_first())
        }
    }
}

/// One call for a protocol exchange: a dial, then the request.
#[derive(Debug)]
pub struct RequestCall {
    stage: CallStage,
    peer_id: PeerId,
    protocol: ProtocolInfo,
    payload: RequestPayload,
}

impl View for RequestCall {
    type V = CallState;

    closed spec fn view(&self) -> CallState {
        CallState {
            stage: self.stage,
            peer: self.peer_id@,
            protocol: self.protocol@,
            payload: self.payload@,
        }
    }
}

impl RequestCall {
    /// Takes what came back from the loop and says what the call does next.
    /// After a dial that succeeded the request is sent; after one that failed
    /// the failure is returned and nothing is sent. The outcome of the
    /// request is returned as it came.
    pub fn advance<E>(&mut self, event: CallEvent<E>) -> (step: CallStep<E>)
        ensures
            final(self)@ == (CallState { stage: old(self)@.next_stage(event), ..old(self)@ }),
            step.kind() == old(self)@.next_kind(event),
            match (old(self)@.stage, event) {
                (CallStage::AwaitingDial, CallEvent::DialSettled(Ok(_))) => step matches CallStep::Request {
                    peer_id,
                    protocol,
                    payload,
                } && peer_id@ == old(self)@.peer && protocol@ == old(self)@.protocol && payload@
                    == old(self)@.payload,
                (CallStage::AwaitingDial, CallEvent::DialSettled(Err(e))) => step
                    == CallStep::<E>::Done(Err(CallError::Dial(e))),
                (CallStage::AwaitingResponse, CallEvent::RequestSettled(Ok(response))) => step
                    == CallStep::<E>::Done(Ok(response)),
                (CallStage::AwaitingResponse, CallEvent::RequestSettled(Err(e))) => step
                    == CallStep::<E>::Done(Err(CallError::Request(e))),
                _ => step == CallStep::<E>::Done(Err(CallError::OutOfOrder)),
            },
    {
        match (self.stage, event) {
            (CallStage::AwaitingDial, CallEvent::DialSettled(Ok(_))) => {
                self.stage = CallStage::AwaitingResponse;
                CallStep::Request {
                    peer_id: self.peer_id.duplicate(),
                    protocol: self.protocol.duplicate(),
                    payload: crate::peer::address::bytes_copy(self.payload.as_slice()),
                }
            },
            (CallStage::AwaitingDial, CallEvent::DialSettled(Err(e))) => {
                self.stage = CallStage::Finished;
                CallStep::Done(Err(CallError::Dial(e)))
            },
            (CallStage::AwaitingResponse, CallEvent::RequestSettled(Ok(response))) => {
                self.stage = CallStage::Finished;
                CallStep::Done(Ok(response))
            },
            (CallStage::AwaitingResponse, CallEvent::RequestSettled(Err(e))) => {
                self.stage = CallStage::Finished;
                CallStep::Done(Err(CallError::Request(e)))
            },
            _ => {
                self.stage = CallStage::Finished;
                CallStep::Done(Err(CallError::OutOfOrder))
            },
        }
    }
}

/// A call dials exactly once, before anything else, and sends its request at
/// most once: never before the dial has succeeded, and never when the first
/// thing that comes back is a failed dial.
pub proof fn lemma_one_dial_before_request<E>(call: CallState, events: Seq<CallEvent<E>>)
    ensures
        call.kinds(events).len() == events.len(),
        forall|i: int| 0 <= i < events.len() ==> !(#[trigger] call.kinds(events)[i] is Dial),
        call.stage != CallStage::AwaitingDial ==> forall|i: int|
            0 <= i < events.len() ==> !(#[trigger] call.kinds(events)[i] is Request),
        call.stage == CallStage::AwaitingDial ==> forall|i: int|
            1 <= i < events.len() ==> !(#[trigger] call.kinds(events)[i] is Request),
        call.stage == CallStage::AwaitingDial && events.len() > 0 ==> (call.kinds(events)[0]
            is Request <==> events[0] matches CallEvent::DialSettled(Ok(_))),
    decreases events.len(),
{
    if events.len() > 0 {
        let next = CallState { stage: call.next_stage(events[0]), ..call };
        let rest = events.drop_first();
        lemma_one_dial_before_request(next, rest);
        let kinds = call.kinds(events);
        assert(kinds =~= seq![call.next_kind(events[0])] + next.kinds(rest));
        assert forall|i: int| 1 <= i < events.len() implies kinds[i] == next.kinds(rest)[i - 1] by {}
        assert(next.stage != CallStage::AwaitingDial);
    }
}

/// The handle of a peer node.
#[derive(Debug)]
pub struct PeerNode {
    peer_id: PeerId,
    running: bool,
}

impl PeerNode {
    /// The identity of the node.
    pub closed spec fn spec_peer_id(&self) -> Seq<u8> {
        self.peer_id@
    }

    /// Whether the loop of the node has not been shut down.
    pub closed spec fn is_running(&self) -> bool {
        self.running
    }

    /// A running node with the identity `peer_id`, and the behaviour that its
    /// swarm is built with: it has the timeouts of `config` and knows no peer.
    pub fn spawn(config: RequestResponseConfig, peer_id: PeerId) -> (spawned: (
        PeerNode,
        RequestResponse,
    ))
        ensures
            spawned.0.spec_peer_id() == peer_id@,
            spawned.0.is_running(),
            spawned.1.wf(),
            spawned.1.spec_config() == config,
            spawned.1@ == (BehaviourState {
                next_request_id: 1,
                pending_events: Seq::empty(),
                connected: Map::empty(),
                addresses: Map::empty(),
                pending_outbound: Map::empty(),
            }),
    {
        (PeerNode { peer_id, running: true }, RequestResponse::new(config))
    }

    /// The identity of the node.
    pub fn peer_id(&self) -> (peer_id: PeerId)
        ensures
            peer_id@ == self.spec_peer_id(),
    {
        self.peer_id.duplicate()
    }

    /// Shuts the node down. Returns whether the loop is to be told to stop
    /// and to be waited for: `true` the first time, `false` ever after.
    pub fn shutdown(&mut self) -> (stop: bool)
        ensures
            stop == old(self).is_running(),
            !final(self).is_running(),
            final(self).spec_peer_id() == old(self).spec_peer_id(),
    {
        let stop = self.running;
        self.running = false;
        stop
    }

    /// The command that asks the loop to dial `peer_id` at `peer_addr` and to
    /// reply on `sender`.
    pub fn dial<D, R>(&self, peer_id: PeerId, peer_addr: Multiaddr, sender: D) -> (command: Command<
        D,
        R,
    >)
        ensures
            command == (Command::<D, R>::Dial { peer_id, peer_addr, sender }),
    {
        Command::Dial { peer_id, peer_addr, sender }
    }

    /// Begins a call for an exchange with `peer_id` over `protocol`: the first
    /// step is to dial the peer at `peer_addr`.
    pub fn request_protocol<E>(
        &self,
        peer_id: PeerId,
        peer_addr: Multiaddr,
        protocol: &[u8],
        payload: Vec<u8>,
    ) -> (begun: (RequestCall, CallStep<E>))
        ensures
            begun.0@ == (CallState {
                stage: CallStage::AwaitingDial,
                peer: peer_id@,
                protocol: protocol@,
                payload: payload@,
            }),
            begun.1 matches CallStep::Dial { peer_id: p, peer_addr: a } && p@ == peer_id@ && a
                == peer_addr,
    {
        let call = RequestCall {
            stage: CallStage::AwaitingDial,
            peer_id: peer_id.duplicate(),
            protocol: ProtocolInfo::from_slice(protocol),
            payload,
        };
        (call, CallStep::Dial { peer_id, peer_addr })
    }
}

} // verus!
