//! The reporter of the daemon: activities as events for Filecoin Station,
//! console messages for the log, and the job counter kept in the state file.

use crate::daemon::state::State;
use crate::runtime::console_reporter::{follows_completion, JobCompletionTracker, TrackerState};
use std::time::Instant;
use crate::runtime::reporter::{LogLevel, Reporter};
use crate::text::{trim_end, without_trailing_space};
use vstd::prelude::*;
use vstd::string::StringExecFns;

verus! {

/// An event of the activity stream. Each is written as one JSON object on a
/// line of its own.
#[derive(Debug)]
#[allow(inconsistent_fields)]
pub enum StationEvent {
    /// An activity of level "info": `type` is `activity:info`.
    InfoActivity { module: Option<String>, message: String },
    /// An activity of level "error": `type` is `activity:error`.
    ErrorActivity { module: Option<String>, message: String },
    /// The jobs completed so far: `type` is `jobs-completed`, `modules` maps
    /// the name of the module to its total.
    JobsCompleted { total: u64, module: String },
}

/// An event, apart from how it is stored.
#[allow(inconsistent_fields)]
pub enum StationEventView {
    InfoActivity { module: Option<Seq<char>>, message: Seq<char> },
    ErrorActivity { module: Option<Seq<char>>, message: Seq<char> },
    JobsCompleted { total: u64, module: Seq<char> },
}

impl StationEvent {
    /// The value of the field `type` of the event.
    pub open spec fn spec_kind_name(self) -> Seq<char> {
        match self {
            StationEvent::InfoActivity { .. } => "activity:info"@,
            StationEvent::ErrorActivity { .. } => "activity:error"@,
            StationEvent::JobsCompleted { .. } => "jobs-completed"@,
        }
    }

    /// The value of the field `type` of the event.
    pub fn kind_name(&self) -> (name: &'static str)
        ensures
            name@ == self.spec_kind_name(),
    {
        match self {
            StationEvent::InfoActivity { .. } => "activity:info",
            StationEvent::ErrorActivity { .. } => "activity:error",
            StationEvent::JobsCompleted { .. } => "jobs-completed",
        }
    }
}

impl View for StationEvent {
    type V = StationEventView;

    open spec fn view(&self) -> StationEventView {
        match self {
            StationEvent::InfoActivity { module, message } => StationEventView::InfoActivity {
                module: crate::daemon::args::opt_text(*module),
                message: message@,
            },
            StationEvent::ErrorActivity { module, message } => StationEventView::ErrorActivity {
                module: crate::daemon::args::opt_text(*module),
                message: message@,
            },
            StationEvent::JobsCompleted { total, module } => StationEventView::JobsCompleted {
                total: *total,
                module: module@,
            },
        }
    }
}

/// Something for the daemon to put out.
#[derive(Debug)]
pub enum StationOutput {
    /// An event for standard output.
    Event(StationEvent),
    /// A console message for the log, under `target` and at `level`.
    Log { target: String, level: LogLevel, message: String },
    /// The state to store in the state file.
    Store(State),
}

/// An output, apart from how it is stored.
pub enum StationOutputView {
    Event(StationEventView),
    Log { target: Seq<char>, level: LogLevel, message: Seq<char> },
    Store(State),
}

impl View for StationOutput {
    type V = StationOutputView;

    open spec fn view(&self) -> StationOutputView {
        match self {
            StationOutput::Event(event) => StationOutputView::Event(event@),
            StationOutput::Log { target, level, message } => StationOutputView::Log {
                target: target@,
                level: *level,
                message: message@,
            },
            StationOutput::Store(state) => StationOutputView::Store(*state),
        }
    }
}

/// The activity of level "info" that belongs to no module.
pub fn log_info_activity(msg: &str) -> (event: StationEvent)
    ensures
        event@ == (StationEventView::InfoActivity { module: None, message: msg@ }),
{
    StationEvent::InfoActivity { module: None, message: String::from_str(msg) }
}

/// The activity of level "error" that belongs to no module.
pub fn log_error_activity(msg: &str) -> (event: StationEvent)
    ensures
        event@ == (StationEventView::ErrorActivity { module: None, message: msg@ }),
{
    StationEvent::ErrorActivity { module: None, message: String::from_str(msg) }
}

/// A reporter, apart from how it is stored.
pub struct StationState {
    pub tracker: TrackerState,
    pub module_name: Seq<char>,
    pub output: Seq<StationOutputView>,
}

/// Reports the activities of one module to Filecoin Station. What is to be
/// put out waits in the reporter until it is taken out.
#[derive(Debug)]
pub struct StationReporter {
    tracker: JobCompletionTracker,
    module_name: String,
    output: Vec<StationOutput>,
}

impl View for StationReporter {
    type V = StationState;

    closed spec fn view(&self) -> StationState {
        StationState {
            tracker: self.tracker@,
            module_name: self.module_name@,
            output: self.output@.map_values(|o: StationOutput| o@),
        }
    }
}

impl StationReporter {
    /// The clock reading at which completed jobs were last reported, if they
    /// were.
    pub closed spec fn last_report_at(&self) -> Option<Instant> {
        self.tracker.last_report_at()
    }

    /// Whether `output` is what waits after a job was completed in the state
    /// `before`, `waited` after the last report: the report of the new total
    /// where the tracker reports it, and in every case the state to store.
    pub open spec fn job_outcome(
        before: StationState,
        waited: Option<nat>,
        output: Seq<StationOutputView>,
    ) -> bool {
        let total = (before.tracker.counter + 1) as u64;
        let store = StationOutputView::Store(State { total_jobs_completed: total });
        if before.tracker.reports(waited) {
            output == before.output.push(
                StationOutputView::Event(
                    StationEventView::JobsCompleted { total, module: before.module_name },
                ),
            ).push(store)
        } else {
            output == before.output.push(store)
        }
    }

    /// A reporter for the module `module_name` that begins with the count of
    /// `initial` and reports completed jobs at most once every
    /// `job_report_delay` milliseconds.
    pub fn new(initial: State, job_report_delay: u64, module_name: String) -> (reporter: Self)
        ensures
            reporter@ == (StationState {
                tracker: TrackerState {
                    delay: job_report_delay as nat,
                    counter: initial.total_jobs_completed as nat,
                    last_total: None,
                },
                module_name: module_name@,
                output: Seq::empty(),
            }),
            reporter.last_report_at() is None,
    {
        let reporter = Self {
            tracker: JobCompletionTracker::new(initial.total_jobs_completed, job_report_delay),
            module_name,
            output: Vec::new(),
        };
        assert(reporter@.output =~= Seq::empty());
        reporter
    }

    /// The number of jobs completed so far.
    pub fn counter(&self) -> (total: u64)
        ensures
            total == self@.tracker.counter,
    {
        self.tracker.counter()
    }

    /// Queues one output.
    fn push(&mut self, output: StationOutput)
        ensures
            final(self)@ == (StationState { output: old(self)@.output.push(output@), ..old(self)@ }),
            final(self).last_report_at() == old(self).last_report_at(),
    {
        self.output.push(output);
        assert(self@.output =~= old(self)@.output.push(output@));
    }

    /// Queues the event that `total` jobs have been completed.
    fn print_jobs_completed(&mut self, total: u64)
        ensures
            final(self)@ == (StationState {
                output: old(self)@.output.push(
                    StationOutputView::Event(
                        StationEventView::JobsCompleted { total, module: old(self)@.module_name },
                    ),
                ),
                ..old(self)@
            }),
            final(self).last_report_at() == old(self).last_report_at(),
    {
        let module = self.module_name.clone();
        self.push(StationOutput::Event(StationEvent::JobsCompleted { total, module }));
    }

    /// Takes out what waits to be put out, oldest first.
    pub fn take_output(&mut self) -> (output: Vec<StationOutput>)
        ensures
            output@.map_values(|o: StationOutput| o@) == old(self)@.output,
            final(self)@ == (StationState { output: Seq::empty(), ..old(self)@ }),
            final(self).last_report_at() == old(self).last_report_at(),
    {
        let mut output: Vec<StationOutput> = Vec::new();
        std::mem::swap(&mut output, &mut self.output);
        assert(self@.output =~= Seq::empty());
        output
    }

    /// Ends the reporting: where jobs were completed since the last report,
    /// the total is reported once more.
    pub fn finish(&mut self)
        ensures
            final(self)@ == (StationState {
                output: match old(self)@.tracker.flush_report() {
                    Some(total) => old(self)@.output.push(
                        StationOutputView::Event(
                            StationEventView::JobsCompleted {
                                total: total as u64,
                                module: old(self)@.module_name,
                            },
                        ),
                    ),
                    None => old(self)@.output,
                },
                ..old(self)@
            }),
            final(self).last_report_at() == old(self).last_report_at(),
    {
        match self.tracker.pending_flush() {
            Some(total) => self.print_jobs_completed(total),
            None => {},
        }
    }
}

impl Reporter for StationReporter {
    /// The counter must not have reached its largest value.
    open spec fn can_count_job(&self) -> bool {
        self@.tracker.counter < u64::MAX
    }

    /// Queues a console message for the log, without the white space at its
    /// end.
    fn log(&mut self, level: LogLevel, msg: &str)
        ensures
            final(self)@ == (StationState {
                output: old(self)@.output.push(
                    StationOutputView::Log {
                        target: "module:"@ + old(self)@.module_name,
                        level,
                        message: without_trailing_space(msg@),
                    },
                ),
                ..old(self)@
            }),
            final(self).last_report_at() == old(self).last_report_at(),
    {
        let mut target = String::from_str("module:");
        target.append(self.module_name.as_str());
        self.push(StationOutput::Log { target, level, message: trim_end(msg) });
    }

    /// Queues an activity of level "info" of this module.
    fn info_activity(&mut self, msg: &str)
        ensures
            final(self)@ == (StationState {
                output: old(self)@.output.push(
                    StationOutputView::Event(
                        StationEventView::InfoActivity {
                            module: Some(old(self)@.module_name),
                            message: msg@,
                        },
                    ),
                ),
                ..old(self)@
            }),
            final(self).last_report_at() == old(self).last_report_at(),
    {
        let module = Some(self.module_name.clone());
        self.push(
            StationOutput::Event(
                StationEvent::InfoActivity { module, message: String::from_str(msg) },
            ),
        );
    }

    /// Queues an activity of level "error" of this module.
    fn error_activity(&mut self, msg: &str)
        ensures
            final(self)@ == (StationState {
                output: old(self)@.output.push(
                    StationOutputView::Event(
                        StationEventView::ErrorActivity {
                            module: Some(old(self)@.module_name),
                            message: msg@,
                        },
                    ),
                ),
                ..old(self)@
            }),
            final(self).last_report_at() == old(self).last_report_at(),
    {
        let module = Some(self.module_name.clone());
        self.push(
            StationOutput::Event(
                StationEvent::ErrorActivity { module, message: String::from_str(msg) },
            ),
        );
    }

    /// Counts one more job, queues the event with the new total where the
    /// tracker reports this completion, and queues the new total to be
    /// stored.
    fn job_completed(&mut self)
        ensures
            final(self)@.module_name == old(self)@.module_name,
            exists|waited: Option<nat>, now: Instant| #[trigger]
                follows_completion(
                    old(self)@.tracker,
                    old(self).last_report_at(),
                    waited,
                    now,
                    final(self)@.tracker,
                    final(self).last_report_at(),
                ) && Self::job_outcome(old(self)@, waited, final(self)@.output),
    {
        let (total, report) = self.tracker.complete_now();
        let ghost (waited, now) = choose|waited: Option<nat>, now: Instant| #[trigger]
            follows_completion(
                old(self)@.tracker,
                old(self).last_report_at(),
                waited,
                now,
                self@.tracker,
                self.last_report_at(),
            ) && report == (if old(self)@.tracker.reports(waited) {
                Some(total)
            } else {
                None
            });
        if let Some(n) = report {
            self.print_jobs_completed(n);
        }
        self.push(StationOutput::Store(State { total_jobs_completed: total }));
        assert(Self::job_outcome(old(self)@, waited, self@.output));
        assert(follows_completion(
            old(self)@.tracker,
            old(self).last_report_at(),
            waited,
            now,
            self@.tracker,
            self.last_report_at(),
        ));
    }
}

} // verus!
