//! One request/response exchange over one outbound substream: what is offered
//! in negotiation, what is written and how much is read back.

use crate::peer::behaviour::RequestId;
use smallvec::SmallVec;
use vstd::prelude::*;

verus! {

/// The bytes of a request.
pub type RequestPayload = Vec<u8>;

/// The bytes of a response.
pub type ResponsePayload = Vec<u8>;

/// The name of a protocol, a short byte string kept inline in a
/// `smallvec::SmallVec`.
#[verifier::external_body]
#[derive(Debug)]
pub struct ProtocolInfo {
    name: SmallVec<[u8; 16]>,
}

/// The bytes that a protocol name holds.
pub uninterp spec fn protocol_name(info: ProtocolInfo) -> Seq<u8>;

impl View for ProtocolInfo {
    type V = Seq<u8>;

    open spec fn view(&self) -> Seq<u8> {
        protocol_name(*self)
    }
}

/// The names of a slice of protocols.
pub open spec fn names_of(protocols: Seq<ProtocolInfo>) -> Seq<Seq<u8>> {
    Seq::new(protocols.len(), |i: int| protocols[i]@)
}

/// Copies bytes into a new name with `SmallVec::from_slice`: the name holds
/// exactly the bytes of the slice.
#[verifier::external_body]
fn name_from_slice(name: &[u8]) -> (info: ProtocolInfo)
    ensures
        protocol_name(info) == name@,
{
    ProtocolInfo { name: SmallVec::from_slice(name) }
}

/// Borrows the bytes of a name with `SmallVec::as_slice`.
#[verifier::external_body]
fn name_as_slice(info: &ProtocolInfo) -> (name: &[u8])
    ensures
        name@ == protocol_name(*info),
{
    info.name.as_slice()
}

/// Copies a name with `SmallVec`'s `Clone`: the copy holds the same bytes.
#[verifier::external_body]
fn name_clone(info: &ProtocolInfo) -> (copy: ProtocolInfo)
    ensures
        protocol_name(copy) == protocol_name(*info),
{
    ProtocolInfo { name: info.name.clone() }
}

impl ProtocolInfo {
    /// The protocol name with the given bytes.
    pub fn from_slice(name: &[u8]) -> (info: ProtocolInfo)
        ensures
            info@ == name@,
    {
        name_from_slice(name)
    }

    /// The bytes of the name.
    pub fn as_slice(&self) -> (name: &[u8])
        ensures
            name@ == self@,
    {
        name_as_slice(self)
    }

    /// A copy of the name.
    pub fn duplicate(&self) -> (copy: ProtocolInfo)
        ensures
            copy@ == self@,
    {
        name_clone(self)
    }
}

/// The protocols offered for one request, in order of preference, kept inline
/// in a `smallvec::SmallVec`.
#[verifier::external_body]
#[derive(Debug)]
pub struct ProtocolList {
    items: SmallVec<[ProtocolInfo; 2]>,
}

/// The names that a list of protocols holds, in order.
pub uninterp spec fn protocol_names(list: ProtocolList) -> Seq<Seq<u8>>;

impl View for ProtocolList {
    type V = Seq<Seq<u8>>;

    open spec fn view(&self) -> Seq<Seq<u8>> {
        protocol_names(*self)
    }
}

/// Makes a list with `SmallVec::new`: it holds nothing.
#[verifier::external_body]
fn list_new() -> (list: ProtocolList)
    ensures
        protocol_names(list) == Seq::<Seq<u8>>::empty(),
{
    ProtocolList { items: SmallVec::new() }
}

/// Appends with `SmallVec::push`: the name comes last, the others stay.
#[verifier::external_body]
fn list_push(list: &mut ProtocolList, info: ProtocolInfo)
    ensures
        protocol_names(*final(list)) == protocol_names(*old(list)).push(protocol_name(info)),
{
    list.items.push(info)
}

/// Borrows the names of a list with `SmallVec::as_slice`: the same names in
/// the same order.
#[verifier::external_body]
fn list_as_slice(list: &ProtocolList) -> (protocols: &[ProtocolInfo])
    ensures
        names_of(protocols@) == protocol_names(*list),
{
    list.items.as_slice()
}

impl ProtocolList {
    /// The list of the given names, in their order.
    pub fn from_slice(protocols: &[ProtocolInfo]) -> (list: ProtocolList)
        ensures
            list@ == names_of(protocols@),
    {
        let mut list = list_new();
        let mut i: usize = 0;
        while i < protocols.len()
            invariant
                i <= protocols@.len(),
                list@ == names_of(protocols@).subrange(0, i as int),
            decreases protocols@.len() - i,
        {
            list_push(&mut list, protocols[i].duplicate());
            assert(list@ =~= names_of(protocols@).subrange(0, i + 1));
            i = i + 1;
        }
        assert(list@ =~= names_of(protocols@));
        list
    }

    /// The names of the list, in their order.
    pub fn to_vec(&self) -> (protocols: Vec<ProtocolInfo>)
        ensures
            names_of(protocols@) == self@,
    {
        let items = list_as_slice(self);
        let mut protocols: Vec<ProtocolInfo> = Vec::new();
        let mut i: usize = 0;
        while i < items.len()
            invariant
                i <= items@.len(),
                names_of(items@) == self@,
                names_of(protocols@) == self@.subrange(0, i as int),
            decreases items@.len() - i,
        {
            let ghost before = protocols@;
            let copy = items[i].duplicate();
            assert(copy@ == names_of(items@)[i as int]);
            protocols.push(copy);
            assert(names_of(protocols@) =~= names_of(before).push(copy@));
            assert(names_of(protocols@) =~= self@.subrange(0, i + 1));
            i = i + 1;
        }
        assert(names_of(protocols@) =~= self@);
        protocols
    }
}

/// What a request is, apart from how it is stored.
pub struct RequestView {
    pub request_id: u64,
    pub protocols: Seq<Seq<u8>>,
    pub payload: Seq<u8>,
}

/// A request on its way out: the protocols offered for it, its identifier and
/// its payload.
#[derive(Debug)]
pub struct RequestProtocol {
    pub protocols: ProtocolList,
    pub request_id: RequestId,
    pub payload: RequestPayload,
}

impl View for RequestProtocol {
    type V = RequestView;

    open spec fn view(&self) -> RequestView {
        RequestView {
            request_id: self.request_id@,
            protocols: self.protocols@,
            payload: self.payload@,
        }
    }
}

/// The most bytes of a response that are read: 10 MiB.
pub const MAX_RESPONSE_SIZE: usize = 10485760;

/// Why an exchange failed.
#[derive(Debug)]
pub enum ExchangeError {
    /// Writing, flushing, closing or reading failed with the given message.
    Io(String),
    /// An event arrived that the exchange was not waiting for.
    OutOfOrder,
}

/// Where an exchange stands.
#[derive(Clone, Copy, Debug, PartialEq, Eq, Structural)]
pub enum ExchangeStage {
    /// The request payload is being written.
    Writing,
    /// The written bytes are being flushed.
    Flushing,
    /// The write side is being closed, which ends the request.
    Closing,
    /// The response is being read.
    Reading,
    /// The exchange is over.
    Done,
}

/// What the substream did since the last action.
#[derive(Debug)]
pub enum ExchangeEvent {
    /// The write, flush or close that was asked for has completed.
    Completed,
    /// A read returned these bytes. No bytes mean the end of the stream.
    Data(Vec<u8>),
    /// A read found the end of the stream.
    EndOfStream,
    /// The operation that was asked for failed.
    Failed(String),
}

/// What is to be done on the substream next.
#[derive(Debug)]
pub enum ExchangeAction {
    /// Write all of these bytes.
    Write(Vec<u8>),
    /// Flush what was written.
    Flush,
    /// Close the write side.
    Close,
    /// Read once, taking no more than `at_most` bytes.
    Read { at_most: usize },
    /// The exchange is over and these bytes are the response.
    Succeed(ResponsePayload),
    /// The exchange is over and has failed.
    Fail(ExchangeError),
}

/// What an event is, apart from how it is stored.
pub enum ExchangeEventView {
    Completed,
    Data(Seq<u8>),
    EndOfStream,
    Failed(Seq<char>),
}

/// What an action is, apart from how it is stored.
pub enum ExchangeActionView {
    Write(Seq<u8>),
    Flush,
    Close,
    Read { at_most: nat },
    Succeed(Seq<u8>),
    FailIo(Seq<char>),
    FailOutOfOrder,
}

impl View for ExchangeEvent {
    type V = ExchangeEventView;

    open spec fn view(&self) -> ExchangeEventView {
        match self {
            ExchangeEvent::Completed => ExchangeEventView::Completed,
            ExchangeEvent::Data(bytes) => ExchangeEventView::Data(bytes@),
            ExchangeEvent::EndOfStream => ExchangeEventView::EndOfStream,
            ExchangeEvent::Failed(msg) => ExchangeEventView::Failed(msg@),
        }
    }
}

impl View for ExchangeAction {
    type V = ExchangeActionView;

    open spec fn view(&self) -> ExchangeActionView {
        match self {
            ExchangeAction::Write(bytes) => ExchangeActionView::Write(bytes@),
            ExchangeAction::Flush => ExchangeActionView::Flush,
            ExchangeAction::Close => ExchangeActionView::Close,
            ExchangeAction::Read { at_most } => ExchangeActionView::Read { at_most: *at_most as nat },
            ExchangeAction::Succeed(bytes) => ExchangeActionView::Succeed(bytes@),
            ExchangeAction::Fail(ExchangeError::Io(msg)) => ExchangeActionView::FailIo(msg@),
            ExchangeAction::Fail(ExchangeError::OutOfOrder) => ExchangeActionView::FailOutOfOrder,
        }
    }
}

/// The state of an exchange: its stage and the response bytes read so far.
pub struct ExchangeState {
    pub stage: ExchangeStage,
    pub response: Seq<u8>,
}

/// The first `n` bytes of `chunk`, or all of it where it is shorter.
pub open spec fn capped(chunk: Seq<u8>, n: nat) -> Seq<u8> {
    if chunk.len() <= n {
        chunk
    } else {
        chunk.subrange(0, n as int)
    }
}

impl ExchangeState {
    /// The state after an event and the action that answers the event.
    pub open spec fn step(self, event: ExchangeEventView) -> (ExchangeState, ExchangeActionView) {
        let done = ExchangeState { stage: ExchangeStage::Done, response: self.response };
        match (self.stage, event) {
            (ExchangeStage::Done, _) => (done, ExchangeActionView::FailOutOfOrder),
            (_, ExchangeEventView::Failed(msg)) => (done, ExchangeActionView::FailIo(msg)),
            (ExchangeStage::Writing, ExchangeEventView::Completed) => (
                ExchangeState { stage: ExchangeStage::Flushing, response: self.response },
                ExchangeActionView::Flush,
            ),
            (ExchangeStage::Flushing, ExchangeEventView::Completed) => (
                ExchangeState { stage: ExchangeStage::Closing, response: self.response },
                ExchangeActionView::Close,
            ),
            (ExchangeStage::Closing, ExchangeEventView::Completed) => (
                ExchangeState { stage: ExchangeStage::Reading, response: self.response },
                ExchangeActionView::Read {
                    at_most: (MAX_RESPONSE_SIZE - self.response.len()) as nat,
                },
            ),
            (ExchangeStage::Reading, ExchangeEventView::EndOfStream) => (
                done,
                ExchangeActionView::Succeed(self.response),
            ),
            (ExchangeStage::Reading, ExchangeEventView::Data(chunk)) => {
                let room = (MAX_RESPONSE_SIZE - self.response.len()) as nat;
                let response = self.response + capped(chunk, room);
                if chunk.len() == 0 || response.len() >= MAX_RESPONSE_SIZE {
                    (
                        ExchangeState { stage: ExchangeStage::Done, response },
                        ExchangeActionView::Succeed(response),
                    )
                } else {
                    (
                        ExchangeState { stage: ExchangeStage::Reading, response },
                        ExchangeActionView::Read {
                            at_most: (MAX_RESPONSE_SIZE - response.len()) as nat,
                        },
                    )
                }
            },
            _ => (done, ExchangeActionView::FailOutOfOrder),
        }
    }
}

/// An exchange in progress on one outbound substream.
#[derive(Debug)]
pub struct OutboundExchange {
    stage: ExchangeStage,
    response: Vec<u8>,
}

impl View for OutboundExchange {
    type V = ExchangeState;

    closed spec fn view(&self) -> ExchangeState {
        ExchangeState { stage: self.stage, response: self.response@ }
    }
}

/// Appends the first `n` bytes of `src` to `dst`.
fn append_prefix(dst: &mut Vec<u8>, src: &[u8], n: usize)
    requires
        n <= src@.len(),
    ensures
        final(dst)@ == old(dst)@ + src@.subrange(0, n as int),
{
    let mut i: usize = 0;
    while i < n
        invariant
            i <= n <= src@.len(),
            dst@ == old(dst)@ + src@.subrange(0, i as int),
        decreases n - i,
    {
        dst.push(src[i]);
        assert(dst@ =~= old(dst)@ + src@.subrange(0, i + 1));
        i = i + 1;
    }
}

impl OutboundExchange {
    /// Whether the exchange keeps its bound: a response never grows beyond
    /// the most that is read.
    pub open spec fn wf(&self) -> bool {
        self@.response.len() <= MAX_RESPONSE_SIZE
    }

    /// Where the exchange stands.
    pub fn stage(&self) -> (stage: ExchangeStage)
        ensures
            stage == self@.stage,
    {
        self.stage
    }

    /// Takes what the substream did and says what to do next. The request is
    /// written, flushed and its write side closed; then the response is read
    /// until the stream ends or the response has reached its largest size.
    pub fn advance(&mut self, event: ExchangeEvent) -> (action: ExchangeAction)
        requires
            old(self).wf(),
        ensures
            final(self).wf(),
            (final(self)@, action@) == old(self)@.step(event@),
    {
        match (self.stage, event) {
            (ExchangeStage::Done, _) => ExchangeAction::Fail(ExchangeError::OutOfOrder),
            (_, ExchangeEvent::Failed(msg)) => {
                self.stage = ExchangeStage::Done;
                ExchangeAction::Fail(ExchangeError::Io(msg))
            },
            (ExchangeStage::Writing, ExchangeEvent::Completed) => {
                self.stage = ExchangeStage::Flushing;
                ExchangeAction::Flush
            },
            (ExchangeStage::Flushing, ExchangeEvent::Completed) => {
                self.stage = ExchangeStage::Closing;
                ExchangeAction::Close
            },
            (ExchangeStage::Closing, ExchangeEvent::Completed) => {
                self.stage = ExchangeStage::Reading;
                ExchangeAction::Read { at_most: MAX_RESPONSE_SIZE - self.response.len() }
            },
            (ExchangeStage::Reading, ExchangeEvent::EndOfStream) => {
                self.stage = ExchangeStage::Done;
                ExchangeAction::Succeed(bytes_of(&self.response))
            },
            (ExchangeStage::Reading, ExchangeEvent::Data(chunk)) => {
                let room = MAX_RESPONSE_SIZE - self.response.len();
                let take = if chunk.len() <= room {
                    chunk.len()
                } else {
                    room
                };
                append_prefix(&mut self.response, chunk.as_slice(), take);
                assert(chunk@.subrange(0, chunk@.len() as int) =~= chunk@);
                if chunk.len() == 0 || self.response.len() >= MAX_RESPONSE_SIZE {
                    self.stage = ExchangeStage::Done;
                    ExchangeAction::Succeed(bytes_of(&self.response))
                } else {
                    ExchangeAction::Read { at_most: MAX_RESPONSE_SIZE - self.response.len() }
                }
            },
            _ => {
                self.stage = ExchangeStage::Done;
                ExchangeAction::Fail(ExchangeError::OutOfOrder)
            },
        }
    }
}

/// A copy of the bytes of a vector.
fn bytes_of(v: &Vec<u8>) -> (copy: Vec<u8>)
    ensures
        copy@ == v@,
{
    crate::peer::address::bytes_copy(v.as_slice())
}

impl RequestProtocol {
    /// The protocol names that are offered when the substream is negotiated.
    pub fn protocol_info(&self) -> (protocols: Vec<ProtocolInfo>)
        ensures
            names_of(protocols@) == self@.protocols,
    {
        self.protocols.to_vec()
    }

    /// Starts the exchange on a negotiated substream: the request payload is
    /// the first thing to be written, and no response byte has been read.
    pub fn upgrade_outbound(self) -> (started: (OutboundExchange, ExchangeAction))
        ensures
            started.0.wf(),
            started.0@ == (ExchangeState { stage: ExchangeStage::Writing, response: Seq::empty() }),
            started.1@ == ExchangeActionView::Write(self@.payload),
    {
        (
            OutboundExchange { stage: ExchangeStage::Writing, response: Vec::new() },
            ExchangeAction::Write(self.payload),
        )
    }
}

/// The bytes of `chunks`, one chunk after the other.
pub open spec fn stream_of(chunks: Seq<Seq<u8>>) -> Seq<u8>
    decreases chunks.len(),
{
    if chunks.len() == 0 {
        Seq::empty()
    } else {
        chunks[0] + stream_of(chunks.drop_first())
    }
}

/// The state of an exchange after the reads of `chunks`, one after the other.
pub open spec fn after_reads(state: ExchangeState, chunks: Seq<Seq<u8>>) -> ExchangeState
    decreases chunks.len(),
{
    if chunks.len() == 0 {
        state
    } else {
        after_reads(state.step(ExchangeEventView::Data(chunks[0])).0, chunks.drop_first())
    }
}

/// What an exchange has read is what the stream held, up to the most that is
/// read: while the response is read, reads that bring bytes add them to the
/// response until the stream ends or the response is full, and nothing
/// changes it after that.
pub proof fn lemma_response_is_stream_up_to_cap(state: ExchangeState, chunks: Seq<Seq<u8>>)
    requires
        state.stage == ExchangeStage::Reading && state.response.len() < MAX_RESPONSE_SIZE
            || state.stage == ExchangeStage::Done && state.response.len() == MAX_RESPONSE_SIZE,
        forall|i: int| 0 <= i < chunks.len() ==> (#[trigger] chunks[i]).len() > 0,
    ensures
        after_reads(state, chunks).response == capped(
            state.response + stream_of(chunks),
            MAX_RESPONSE_SIZE as nat,
        ),
        after_reads(state, chunks).response.len() <= MAX_RESPONSE_SIZE,
    decreases chunks.len(),
{
    if chunks.len() == 0 {
        assert(state.response + stream_of(chunks) =~= state.response);
    } else {
        let next = state.step(ExchangeEventView::Data(chunks[0])).0;
        let rest = chunks.drop_first();
        assert forall|i: int| 0 <= i < rest.len() implies (#[trigger] rest[i]).len() > 0 by {
            assert(rest[i] == chunks[i + 1]);
        }
        lemma_response_is_stream_up_to_cap(next, rest);
        let all = state.response + stream_of(chunks);
        assert(all =~= state.response + chunks[0] + stream_of(rest));
        if state.stage == ExchangeStage::Done {
            assert(next.response == state.response);
            assert(capped(next.response + stream_of(rest), MAX_RESPONSE_SIZE as nat) =~= capped(
                all,
                MAX_RESPONSE_SIZE as nat,
            ));
        } else {
            let room = (MAX_RESPONSE_SIZE - state.response.len()) as nat;
            assert(next.response == state.response + capped(chunks[0], room));
            assert(capped(next.response + stream_of(rest), MAX_RESPONSE_SIZE as nat) =~= capped(
                all,
                MAX_RESPONSE_SIZE as nat,
            ));
        }
    }
}

} // verus!
