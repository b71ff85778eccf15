//! The state that the daemon keeps between runs, and what to do when it is
//! loaded from and stored to its file.

use vstd::prelude::*;
use vstd::string::StringExecFns;

verus! {

/// What the daemon remembers between runs.
#[derive(Clone, Copy, Debug, Default, PartialEq, Eq, Structural)]
pub struct State {
    /// The jobs completed over all runs.
    pub total_jobs_completed: u64,
}

/// What reading the state file gave.
#[derive(Debug)]
pub enum ReadOutcome {
    /// There is no such file.
    NotFound,
    /// The file could not be read, for the given reason.
    Failed(String),
    /// The file was read and its content understood as this state.
    Parsed(State),
    /// The file was read and its content is no state, for the given reason.
    Malformed(String),
}

/// Why the state was not loaded or not stored.
#[derive(Debug)]
pub enum StateError {
    /// The state file could not be read.
    CannotLoad { file: String, cause: String },
    /// The content of the state file is no state.
    CannotParse { file: String, cause: String },
    /// The directory of the state file could not be created.
    CannotCreateDirectory { directory: String, cause: String },
    /// The state file could not be written.
    CannotWrite { file: String, cause: String },
    /// A storing was told of something that it was not waiting for.
    OutOfOrder,
}

impl StateError {
    /// The message of the error, without its cause.
    pub open spec fn spec_message(self) -> Seq<char> {
        match self {
            StateError::CannotLoad { file, .. } => "Cannot load initial state from "@ + file@,
            StateError::CannotParse { file, .. } => "Cannot parse initial state from "@ + file@,
            StateError::CannotCreateDirectory { directory, .. } => "Cannot create state directory "@
                + directory@,
            StateError::CannotWrite { file, .. } => "Cannot write state to "@ + file@,
            StateError::OutOfOrder => "Storing was told of a step that it did not ask for"@,
        }
    }

    /// The message of the error, without its cause.
    pub fn message(&self) -> (text: String)
        ensures
            text@ == self.spec_message(),
    {
        match self {
            StateError::CannotLoad { file, .. } => {
                let mut text = String::from_str("Cannot load initial state from ");
                text.append(file.as_str());
                text
            },
            StateError::CannotParse { file, .. } => {
                let mut text = String::from_str("Cannot parse initial state from ");
                text.append(file.as_str());
                text
            },
            StateError::CannotCreateDirectory { directory, .. } => {
                let mut text = String::from_str("Cannot create state directory ");
                text.append(directory.as_str());
                text
            },
            StateError::CannotWrite { file, .. } => {
                let mut text = String::from_str("Cannot write state to ");
                text.append(file.as_str());
                text
            },
            StateError::OutOfOrder => String::from_str(
                "Storing was told of a step that it did not ask for",
            ),
        }
    }
}

/// What writing the state file gave.
#[derive(Debug)]
pub enum WriteOutcome {
    /// The file was written.
    Written,
    /// A directory on the way to the file is missing.
    NotFound(String),
    /// The file could not be written, for the given reason.
    Failed(String),
}

/// Where the storing of the state stands.
#[derive(Clone, Copy, Debug, PartialEq, Eq, Structural)]
pub enum StoreStage {
    /// The file is being written for the first time.
    FirstWrite,
    /// The directory of the file is being created.
    CreatingDirectory,
    /// The file is being written again.
    SecondWrite,
    /// The storing is over.
    Done,
}

/// What happened to the last step of storing.
#[derive(Debug)]
pub enum StoreEvent {
    /// The write ended.
    Write(WriteOutcome),
    /// The directory was created, or could not be for the given reason.
    Directory(Result<(), String>),
}

/// What storing does next.
#[derive(Debug)]
pub enum StoreStep {
    /// Write the state to the file, replacing it in one step.
    Write(State),
    /// Create the directory of the file and every directory above it.
    CreateDirectory(String),
    /// Storing has ended.
    Finish(Result<(), StateError>),
}

/// The storing of one state to one file.
#[derive(Debug)]
pub struct Store {
    stage: StoreStage,
    state: State,
    file: String,
    parent: Option<String>,
}

/// A storing, apart from how it is kept.
pub struct StoreView {
    pub stage: StoreStage,
    pub state: State,
    pub file: Seq<char>,
    pub parent: Option<Seq<char>>,
}

impl View for Store {
    type V = StoreView;

    closed spec fn view(&self) -> StoreView {
        StoreView {
            stage: self.stage,
            state: self.state,
            file: self.file@,
            parent: match self.parent {
                Some(p) => Some(p@),
                None => None,
            },
        }
    }
}

/// The kind of a step, and what it carries that does not depend on how text
/// is stored.
pub enum StoreStepView {
    Write(State),
    CreateDirectory(Seq<char>),
    Stored,
    CannotCreateDirectory { directory: Seq<char>, cause: Seq<char> },
    CannotWrite { file: Seq<char>, cause: Seq<char> },
    OutOfOrder,
    /// A failure of loading, which storing never ends with.
    Other,
}

impl View for StoreStep {
    type V = StoreStepView;

    open spec fn view(&self) -> StoreStepView {
        match self {
            StoreStep::Write(state) => StoreStepView::Write(*state),
            StoreStep::CreateDirectory(directory) => StoreStepView::CreateDirectory(directory@),
            StoreStep::Finish(Ok(_)) => StoreStepView::Stored,
            StoreStep::Finish(Err(StateError::CannotCreateDirectory { directory, cause })) => StoreStepView::CannotCreateDirectory {
                directory: directory@,
                cause: cause@,
            },
            StoreStep::Finish(Err(StateError::CannotWrite { file, cause })) => StoreStepView::CannotWrite {
                file: file@,
                cause: cause@,
            },
            StoreStep::Finish(Err(StateError::OutOfOrder)) => StoreStepView::OutOfOrder,
            StoreStep::Finish(Err(_)) => StoreStepView::Other,
        }
    }
}

/// An event, apart from how it is stored.
pub enum StoreEventView {
    Written,
    WriteNotFound(Seq<char>),
    WriteFailed(Seq<char>),
    DirectoryCreated,
    DirectoryFailed(Seq<char>),
}

impl View for StoreEvent {
    type V = StoreEventView;

    open spec fn view(&self) -> StoreEventView {
        match self {
            StoreEvent::Write(WriteOutcome::Written) => StoreEventView::Written,
            StoreEvent::Write(WriteOutcome::NotFound(cause)) => StoreEventView::WriteNotFound(cause@),
            StoreEvent::Write(WriteOutcome::Failed(cause)) => StoreEventView::WriteFailed(cause@),
            StoreEvent::Directory(Ok(_)) => StoreEventView::DirectoryCreated,
            StoreEvent::Directory(Err(cause)) => StoreEventView::DirectoryFailed(cause@),
        }
    }
}

impl StoreView {
    /// The stage after an event and the step that answers it. A first write
    /// that misses a directory is tried once more after the directory of the
    /// file has been created; every other failure ends the storing. An event
    /// that the storing did not wait for ends it as out of order.
    pub open spec fn step(self, event: StoreEventView) -> (StoreStage, StoreStepView) {
        match (self.stage, event) {
            (StoreStage::FirstWrite, StoreEventView::Written) => (
                StoreStage::Done,
                StoreStepView::Stored,
            ),
            (StoreStage::SecondWrite, StoreEventView::Written) => (
                StoreStage::Done,
                StoreStepView::Stored,
            ),
            (StoreStage::FirstWrite, StoreEventView::WriteNotFound(cause)) => match self.parent {
                Some(directory) => (
                    StoreStage::CreatingDirectory,
                    StoreStepView::CreateDirectory(directory),
                ),
                None => (
                    StoreStage::Done,
                    StoreStepView::CannotWrite { file: self.file, cause },
                ),
            },
            (StoreStage::SecondWrite, StoreEventView::WriteNotFound(cause)) => (
                StoreStage::Done,
                StoreStepView::CannotWrite { file: self.file, cause },
            ),
            (StoreStage::FirstWrite, StoreEventView::WriteFailed(cause)) => (
                StoreStage::Done,
                StoreStepView::CannotWrite { file: self.file, cause },
            ),
            (StoreStage::SecondWrite, StoreEventView::WriteFailed(cause)) => (
                StoreStage::Done,
                StoreStepView::CannotWrite { file: self.file, cause },
            ),
            (StoreStage::CreatingDirectory, StoreEventView::DirectoryCreated) => (
                StoreStage::SecondWrite,
                StoreStepView::Write(self.state),
            ),
            (StoreStage::CreatingDirectory, StoreEventView::DirectoryFailed(cause)) => (
                StoreStage::Done,
                StoreStepView::CannotCreateDirectory {
                    directory: match self.parent {
                        Some(d) => d,
                        None => Seq::empty(),
                    },
                    cause,
                },
            ),
            _ => (StoreStage::Done, StoreStepView::OutOfOrder),
        }
    }
}

impl State {
    /// The state that the daemon starts with, given what reading the state
    /// file `state_file` gave. A missing file gives the state of a first run;
    /// a file that cannot be read or understood is an error.
    pub fn load(state_file: &str, outcome: ReadOutcome) -> (loaded: Result<State, StateError>)
        ensures
            match outcome {
                ReadOutcome::NotFound => loaded == Ok::<State, StateError>(
                    State { total_jobs_completed: 0 },
                ),
                ReadOutcome::Parsed(state) => loaded == Ok::<State, StateError>(state),
                ReadOutcome::Failed(cause) => loaded matches Err(
                    StateError::CannotLoad { file, cause: c },
                ) && file@ == state_file@ && c == cause,
                ReadOutcome::Malformed(cause) => loaded matches Err(
                    StateError::CannotParse { file, cause: c },
                ) && file@ == state_file@ && c == cause,
            },
    {
        match outcome {
            ReadOutcome::NotFound => Ok(State { total_jobs_completed: 0 }),
            ReadOutcome::Failed(cause) => Err(
                StateError::CannotLoad { file: String::from_str(state_file), cause },
            ),
            ReadOutcome::Parsed(state) => Ok(state),
            ReadOutcome::Malformed(cause) => Err(
                StateError::CannotParse { file: String::from_str(state_file), cause },
            ),
        }
    }

    /// Begins to store this state to `state_file`, whose directory is
    /// `parent` where it has one: the first step is to write the file.
    pub fn store(&self, state_file: &str, parent: Option<&str>) -> (begun: (Store, StoreStep))
        ensures
            begun.0@ == (StoreView {
                stage: StoreStage::FirstWrite,
                state: *self,
                file: state_file@,
                parent: match parent {
                    Some(p) => Some(p@),
                    None => None,
                },
            }),
            begun.1@ == StoreStepView::Write(*self),
    {
        let parent = match parent {
            Some(p) => Some(String::from_str(p)),
            None => None,
        };
        (
            Store {
                stage: StoreStage::FirstWrite,
                state: *self,
                file: String::from_str(state_file),
                parent,
            },
            StoreStep::Write(*self),
        )
    }
}

impl Store {
    /// Takes what happened to the last step and says what storing does next.
    pub fn advance(&mut self, event: StoreEvent) -> (step: StoreStep)
        ensures
            final(self)@ == (StoreView { stage: old(self)@.step(event@).0, ..old(self)@ }),
            step@ == old(self)@.step(event@).1,
    {
        match (self.stage, event) {
            (StoreStage::FirstWrite, StoreEvent::Write(WriteOutcome::Written)) => {
                self.stage = StoreStage::Done;
                StoreStep::Finish(Ok(()))
            },
            (StoreStage::SecondWrite, StoreEvent::Write(WriteOutcome::Written)) => {
                self.stage = StoreStage::Done;
                StoreStep::Finish(Ok(()))
            },
            (StoreStage::FirstWrite, StoreEvent::Write(WriteOutcome::NotFound(cause))) => {
                match &self.parent {
                    Some(directory) => {
                        self.stage = StoreStage::CreatingDirectory;
                        StoreStep::CreateDirectory(directory.clone())
                    },
                    None => {
                        self.stage = StoreStage::Done;
                        StoreStep::Finish(
                            Err(StateError::CannotWrite { file: self.file.clone(), cause }),
                        )
                    },
                }
            },
            (StoreStage::SecondWrite, StoreEvent::Write(WriteOutcome::NotFound(cause))) => {
                self.stage = StoreStage::Done;
                StoreStep::Finish(Err(StateError::CannotWrite { file: self.file.clone(), cause }))
            },
            (StoreStage::FirstWrite, StoreEvent::Write(WriteOutcome::Failed(cause))) => {
                self.stage = StoreStage::Done;
                StoreStep::Finish(Err(StateError::CannotWrite { file: self.file.clone(), cause }))
            },
            (StoreStage::SecondWrite, StoreEvent::Write(WriteOutcome::Failed(cause))) => {
                self.stage = StoreStage::Done;
                StoreStep::Finish(Err(StateError::CannotWrite { file: self.file.clone(), cause }))
            },
            (StoreStage::CreatingDirectory, StoreEvent::Directory(Ok(_))) => {
                self.stage = StoreStage::SecondWrite;
                StoreStep::Write(self.state)
            },
            (StoreStage::CreatingDirectory, StoreEvent::Directory(Err(cause))) => {
                self.stage = StoreStage::Done;
                let directory = match &self.parent {
                    Some(d) => d.clone(),
                    None => String::new(),
                };
                StoreStep::Finish(Err(StateError::CannotCreateDirectory { directory, cause }))
            },
            _ => {
                self.stage = StoreStage::Done;
                StoreStep::Finish(Err(StateError::OutOfOrder))
            },
        }
    }
}

/// A state stored to a file whose directory is missing is written once the
/// directory has been created, and the storing then succeeds.
pub proof fn lemma_store_creates_missing_directory(store: StoreView, cause: Seq<char>)
    requires
        store.stage == StoreStage::FirstWrite,
        store.parent is Some,
    ensures
        store.step(StoreEventView::WriteNotFound(cause)) == (
            StoreStage::CreatingDirectory,
            StoreStepView::CreateDirectory(store.parent.unwrap()),
        ),
        (StoreView { stage: StoreStage::CreatingDirectory, ..store }).step(
            StoreEventView::DirectoryCreated,
        ) == (StoreStage::SecondWrite, StoreStepView::Write(store.state)),
        (StoreView { stage: StoreStage::SecondWrite, ..store }).step(StoreEventView::Written) == (
            StoreStage::Done,
            StoreStepView::Stored,
        ),
{
}

} // verus!
