//! The interface through which a running module reports what it does.

use vstd::prelude::*;
use vstd::string::StringExecFns;

verus! {

/// Severity of a console message, from the least to the most severe.
#[derive(Clone, Copy, Debug, PartialEq, Eq, Structural, PartialOrd, Ord)]
pub enum LogLevel {
    Debug,
    Info,
    Warn,
    Error,
}

impl LogLevel {
    /// Position of the level in the order of severity, starting at 0.
    pub open spec fn spec_rank(self) -> nat {
        match self {
            LogLevel::Debug => 0,
            LogLevel::Info => 1,
            LogLevel::Warn => 2,
            LogLevel::Error => 3,
        }
    }

    /// The lower-case name of the level.
    pub open spec fn spec_name(self) -> Seq<char> {
        match self {
            LogLevel::Debug => "debug"@,
            LogLevel::Info => "info"@,
            LogLevel::Warn => "warn"@,
            LogLevel::Error => "error"@,
        }
    }

    /// The level that a number stands for, if it stands for one.
    pub open spec fn spec_from_repr(repr: int) -> Option<LogLevel> {
        if repr == 0 {
            Some(LogLevel::Debug)
        } else if repr == 1 {
            Some(LogLevel::Info)
        } else if repr == 2 {
            Some(LogLevel::Warn)
        } else if repr == 3 {
            Some(LogLevel::Error)
        } else {
            None
        }
    }

    /// Position of the level in the order of severity, starting at 0.
    pub fn rank(self) -> (r: u8)
        ensures
            r == self.spec_rank(),
    {
        match self {
            LogLevel::Debug => 0,
            LogLevel::Info => 1,
            LogLevel::Warn => 2,
            LogLevel::Error => 3,
        }
    }

    /// Whether this level is at most as severe as `other`.
    pub fn at_most(self, other: LogLevel) -> (b: bool)
        ensures
            b == (self.spec_rank() <= other.spec_rank()),
    {
        self.rank() <= other.rank()
    }

    /// The level with the given rank; `None` for a number that is no rank.
    pub fn from_repr(repr: i32) -> (level: Option<LogLevel>)
        ensures
            level == Self::spec_from_repr(repr as int),
            level matches Some(l) ==> l.spec_rank() == repr,
    {
        if repr == 0 {
            Some(LogLevel::Debug)
        } else if repr == 1 {
            Some(LogLevel::Info)
        } else if repr == 2 {
            Some(LogLevel::Warn)
        } else if repr == 3 {
            Some(LogLevel::Error)
        } else {
            None
        }
    }

    /// The lower-case name of the level.
    pub fn as_str(self) -> (name: &'static str)
        ensures
            name@ == self.spec_name(),
    {
        match self {
            LogLevel::Debug => "debug",
            LogLevel::Info => "info",
            LogLevel::Warn => "warn",
            LogLevel::Error => "error",
        }
    }

    /// The lower-case name of the level, as an owned string.
    pub fn to_string(self) -> (name: String)
        ensures
            name@ == self.spec_name(),
    {
        String::from_str(self.as_str())
    }
}

/// Receives the events, activities and messages of a running module.
pub trait Reporter {
    /// Whether the reporter can count one more job.
    spec fn can_count_job(&self) -> bool;

    /// Takes a console message. The message already ends with a newline.
    fn log(&mut self, level: LogLevel, msg: &str);

    /// Takes an activity entry of level "info". The message has no final newline.
    fn info_activity(&mut self, msg: &str);

    /// Takes an activity entry of level "error". The message has no final newline.
    fn error_activity(&mut self, msg: &str);

    /// Takes the news that the module completed another job.
    fn job_completed(&mut self)
        requires
            old(self).can_count_job(),
    ;
}

/// The record of a console message.
pub open spec fn log_event(level: LogLevel, msg: Seq<char>) -> Seq<char> {
    "console."@ + level.spec_name() + ": "@ + msg
}

/// The record of an "info" activity.
pub open spec fn info_event(msg: Seq<char>) -> Seq<char> {
    "INFO: "@ + msg
}

/// The record of an "error" activity.
pub open spec fn error_event(msg: Seq<char>) -> Seq<char> {
    "ERROR: "@ + msg
}

/// The record of a completed job.
pub open spec fn job_event() -> Seq<char> {
    "JOB-COMPLETED"@
}

/// A reporter that keeps every event as a line of text, in order of arrival.
#[derive(Debug)]
pub struct RecordingReporter {
    pub events: Vec<String>,
}

impl View for RecordingReporter {
    type V = Seq<Seq<char>>;

    open spec fn view(&self) -> Seq<Seq<char>> {
        Seq::new(self.events@.len(), |i: int| self.events@[i]@)
    }
}

impl RecordingReporter {
    /// A reporter that has recorded nothing yet.
    pub fn new() -> (reporter: Self)
        ensures
            reporter@ == Seq::<Seq<char>>::empty(),
    {
        Self { events: Vec::new() }
    }

    /// Appends one event to the record.
    pub fn record(&mut self, event: String)
        ensures
            final(self)@ == old(self)@.push(event@),
    {
        self.events.push(event);
    }
}

impl Default for RecordingReporter {
    fn default() -> (reporter: Self)
        ensures
            reporter@ == Seq::<Seq<char>>::empty(),
    {
        Self::new()
    }
}

impl Reporter for RecordingReporter {
    /// A record has room for every job.
    open spec fn can_count_job(&self) -> bool {
        true
    }

    fn log(&mut self, level: LogLevel, msg: &str)
        ensures
            final(self)@ == old(self)@.push(log_event(level, msg@)),
    {
        let mut event = String::from_str("console.");
        event.append(level.as_str());
        event.append(": ");
        event.append(msg);
        self.record(event);
    }

    fn info_activity(&mut self, msg: &str)
        ensures
            final(self)@ == old(self)@.push(info_event(msg@)),
    {
        let mut event = String::from_str("INFO: ");
        event.append(msg);
        self.record(event);
    }

    fn error_activity(&mut self, msg: &str)
        ensures
            final(self)@ == old(self)@.push(error_event(msg@)),
    {
        let mut event = String::from_str("ERROR: ");
        event.append(msg);
        self.record(event);
    }

    fn job_completed(&mut self)
        ensures
            final(self)@ == old(self)@.push(job_event()),
    {
        self.record(String::from_str("JOB-COMPLETED"));
    }
}

} // verus!
