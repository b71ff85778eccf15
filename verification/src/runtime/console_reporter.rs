//! Rate-limited reporting of completed jobs.

use crate::runtime::reporter::{LogLevel, Reporter};
use crate::text::{decimal, u64_to_string};
use std::time::{Duration, Instant};
use vstd::prelude::*;
use vstd::string::{StrSliceExecFns, StringExecFns};

verus! {

/// A point on the monotonic clock, `std::time::Instant`. Nothing is known of
/// its value.
#[verifier::external_type_specification]
#[verifier::external_body]
pub struct ExInstant(Instant);

/// Reads the monotonic clock with `Instant::now`. The reading depends on the
/// moment of the call, so nothing is stated of it.
#[verifier::external_body]
fn clock_now() -> Instant {
    Instant::now()
}

/// The time that has passed since `at`, by `Instant::elapsed`. It depends on
/// the moment of the call, so nothing is stated of it.
#[verifier::external_body]
fn elapsed_since(at: &Instant) -> Duration {
    at.elapsed()
}

/// The whole milliseconds of a span of time, by `Duration::as_millis`. The
/// span is one that the clock gave, so nothing is stated of the number.
#[verifier::external_body]
fn whole_millis(span: Duration) -> u128 {
    span.as_millis()
}

/// What a tracker knows, without the clock readings it carries.
pub struct TrackerState {
    /// Minimum time between two reports, in milliseconds.
    pub delay: nat,
    /// Jobs completed so far.
    pub counter: nat,
    /// The total that the last report carried, if there was a report.
    pub last_total: Option<nat>,
}

impl TrackerState {
    /// Whether a completion is reported, given the time that has passed since
    /// the last report (`None` where there was no report yet).
    pub open spec fn reports(self, waited: Option<nat>) -> bool {
        match (self.last_total, waited) {
            (Some(_), Some(w)) => w >= self.delay,
            _ => true,
        }
    }

    /// The state after one more job has completed.
    pub open spec fn after_completion(self, waited: Option<nat>) -> TrackerState {
        TrackerState {
            delay: self.delay,
            counter: self.counter + 1,
            last_total: if self.reports(waited) {
                Some(self.counter + 1)
            } else {
                self.last_total
            },
        }
    }

    /// The total that a flush reports, if it reports one.
    pub open spec fn flush_report(self) -> Option<nat> {
        match self.last_total {
            Some(t) if t != self.counter => Some(self.counter),
            _ => None,
        }
    }
}

/// Counts completed jobs and decides which completions are reported.
#[derive(Debug)]
pub struct JobCompletionTracker {
    delay: u64,
    counter: u64,
    last_report: Option<(Instant, u64)>,
}

impl View for JobCompletionTracker {
    type V = TrackerState;

    closed spec fn view(&self) -> TrackerState {
        TrackerState {
            delay: self.delay as nat,
            counter: self.counter as nat,
            last_total: match self.last_report {
                Some((_, total)) => Some(total as nat),
                None => None,
            },
        }
    }
}

/// The clock reading of the last report after a completion at the reading
/// `now`: it is `now` where the completion is reported, and stays `before`
/// where it is not.
pub open spec fn report_time_after(before: Option<Instant>, reported: bool, now: Instant) -> Option<
    Instant,
> {
    if reported {
        Some(now)
    } else {
        before
    }
}

/// Whether the state `after` with the report time `after_at` is what follows
/// from the state `before` with the report time `before_at` when a job is
/// completed at the clock reading `now`, `waited` after the last report.
pub open spec fn follows_completion(
    before: TrackerState,
    before_at: Option<Instant>,
    waited: Option<nat>,
    now: Instant,
    after: TrackerState,
    after_at: Option<Instant>,
) -> bool {
    &&& waited is Some <==> before.last_total is Some
    &&& after == before.after_completion(waited)
    &&& after_at == report_time_after(before_at, before.reports(waited), now)
}

impl JobCompletionTracker {
    /// The clock reading at which the last report was made, if there was a
    /// report. The delay is counted from it.
    pub closed spec fn last_report_at(&self) -> Option<Instant> {
        match self.last_report {
            Some((at, _)) => Some(at),
            None => None,
        }
    }

    /// A tracker holds the time of its last report exactly when it holds the
    /// total of that report.
    pub proof fn lemma_report_has_time_and_total(&self)
        ensures
            self.last_report_at() is Some <==> self@.last_total is Some,
    {
    }

    /// A tracker that starts at `initial_value` and reports at most once
    /// every `delay_millis` milliseconds.
    pub fn new(initial_value: u64, delay_millis: u64) -> (tracker: Self)
        ensures
            tracker@ == (TrackerState {
                delay: delay_millis as nat,
                counter: initial_value as nat,
                last_total: None,
            }),
            tracker.last_report_at() is None,
    {
        Self { delay: delay_millis, counter: initial_value, last_report: None }
    }

    /// The number of jobs completed so far.
    pub fn counter(&self) -> (total: u64)
        ensures
            total == self@.counter,
    {
        self.counter
    }

    /// The time since the last report in milliseconds, read from the clock now.
    fn waited(&self) -> (w: Option<u128>)
        ensures
            w is Some <==> self@.last_total is Some,
    {
        match &self.last_report {
            Some((at, _)) => Some(whole_millis(elapsed_since(at))),
            None => None,
        }
    }

    /// Counts one more job, given a clock reading `now` and the milliseconds
    /// `waited` since the last report. Returns the total to report, if this
    /// completion is reported.
    pub fn record_completion(&mut self, waited: Option<u128>, now: Instant) -> (report: Option<u64>)
        requires
            old(self)@.counter < u64::MAX,
        ensures
            final(self)@ == old(self)@.after_completion(spec_waited(waited)),
            final(self).last_report_at() == report_time_after(
                old(self).last_report_at(),
                old(self)@.reports(spec_waited(waited)),
                now,
            ),
            report == (if old(self)@.reports(spec_waited(waited)) {
                Some((old(self)@.counter + 1) as u64)
            } else {
                None
            }),
    {
        self.counter = self.counter + 1;
        if let Some(w) = waited {
            if self.last_report.is_some() && w < self.delay as u128 {
                return None;
            }
        }
        self.last_report = Some((now, self.counter));
        Some(self.counter)
    }

    /// Counts one more job at the present time. Returns the new total and,
    /// where this completion is reported, the total to report.
    pub fn complete_now(&mut self) -> (outcome: (u64, Option<u64>))
        requires
            old(self)@.counter < u64::MAX,
        ensures
            outcome.0 == old(self)@.counter + 1,
            exists|waited: Option<nat>, now: Instant| #[trigger]
                follows_completion(
                    old(self)@,
                    old(self).last_report_at(),
                    waited,
                    now,
                    final(self)@,
                    final(self).last_report_at(),
                ) && outcome.1 == (if old(self)@.reports(waited) {
                    Some(outcome.0)
                } else {
                    None
                }),
    {
        let waited = self.waited();
        let now = clock_now();
        let report = self.record_completion(waited, now);
        assert(follows_completion(
            old(self)@,
            old(self).last_report_at(),
            spec_waited(waited),
            now,
            self@,
            self.last_report_at(),
        ));
        (self.counter, report)
    }

    /// Counts one more job and hands the new total to `log` if this completion
    /// is reported: always the first time, later only when the delay has passed
    /// since the last report. Returns the new total.
    pub fn job_completed<F: FnOnce(u64)>(&mut self, log: F) -> (total: u64)
        requires
            old(self)@.counter < u64::MAX,
            forall|n: u64| log.requires((n,)),
        ensures
            total == old(self)@.counter + 1,
            exists|waited: Option<nat>, now: Instant| #[trigger]
                follows_completion(
                    old(self)@,
                    old(self).last_report_at(),
                    waited,
                    now,
                    final(self)@,
                    final(self).last_report_at(),
                ) && (old(self)@.reports(waited) ==> log.ensures((total,), ())),
    {
        let waited = self.waited();
        let now = clock_now();
        match self.record_completion(waited, now) {
            Some(n) => {
                log(n);
            },
            None => {},
        }
        assert(follows_completion(
            old(self)@,
            old(self).last_report_at(),
            spec_waited(waited),
            now,
            self@,
            self.last_report_at(),
        ));
        self.counter
    }

    /// Hands the current total to `log` if jobs were completed since the last
    /// report. Without any report so far there is nothing to flush.
    pub fn flush<F: FnOnce(u64)>(&mut self, log: F)
        requires
            forall|n: u64| log.requires((n,)),
        ensures
            final(self)@ == old(self)@,
            final(self).last_report_at() == old(self).last_report_at(),
            old(self)@.flush_report() is Some ==> log.ensures((old(self)@.counter as u64,), ()),
    {
        match self.pending_flush() {
            Some(n) => {
                log(n);
            },
            None => {},
        }
    }

    /// The total that a flush reports now, if it reports one.
    pub fn pending_flush(&self) -> (report: Option<u64>)
        ensures
            report == match self@.flush_report() {
                Some(n) => Some(n as u64),
                None => None,
            },
    {
        match &self.last_report {
            None => None,
            Some((_, last_total)) => {
                if *last_total != self.counter {
                    Some(self.counter)
                } else {
                    None
                }
            },
        }
    }
}

/// The waiting time as a natural number.
pub open spec fn spec_waited(waited: Option<u128>) -> Option<nat> {
    match waited {
        Some(w) => Some(w as nat),
        None => None,
    }
}

/// What a run of completions reports, one entry for each completion: the
/// total that was reported, or nothing. `waits` holds, for each completion,
/// the time since the last report.
pub open spec fn reports_of(state: TrackerState, waits: Seq<nat>) -> Seq<Option<nat>>
    decreases waits.len(),
{
    if waits.len() == 0 {
        Seq::empty()
    } else {
        let waited = if state.last_total is Some {
            Some(waits[0])
        } else {
            None
        };
        let report = if state.reports(waited) {
            Some(state.counter + 1)
        } else {
            None
        };
        seq![report] + reports_of(state.after_completion(waited), waits.drop_first())
    }
}

/// Without a delay every completion is reported, with the total that it
/// brings: one more than the one before.
pub proof fn lemma_no_delay_reports_every_job(state: TrackerState, waits: Seq<nat>)
    requires
        state.delay == 0,
    ensures
        reports_of(state, waits).len() == waits.len(),
        forall|i: int|
            0 <= i < waits.len() ==> #[trigger] reports_of(state, waits)[i] == Some(
                (state.counter + i + 1) as nat,
            ),
    decreases waits.len(),
{
    if waits.len() > 0 {
        let waited = if state.last_total is Some {
            Some(waits[0])
        } else {
            None
        };
        let next = state.after_completion(waited);
        lemma_no_delay_reports_every_job(next, waits.drop_first());
        let all = reports_of(state, waits);
        let rest = reports_of(next, waits.drop_first());
        assert(all =~= seq![Some((state.counter + 1) as nat)] + rest);
        assert forall|i: int| 0 <= i < waits.len() implies #[trigger] all[i] == Some(
            (state.counter + i + 1) as nat,
        ) by {
            if i > 0 {
                assert(all[i] == rest[i - 1]);
            }
        }
    }
}

/// With a delay, the first completion is reported; one that follows within
/// the delay is not; one that follows after the delay is reported with the
/// new total. A flush reports the total where it is not the one last
/// reported, and nothing else.
pub proof fn lemma_delay_spaces_reports(state: TrackerState, soon: nat, late: nat)
    requires
        state.delay > 0,
        state.last_total is None,
        soon < state.delay,
        late >= state.delay,
    ensures
        reports_of(state, seq![0nat, soon, late]) == seq![
            Some(state.counter + 1),
            None,
            Some(state.counter + 3),
        ],
        state.flush_report() is None,
        state.after_completion(None).flush_report() is None,
        state.after_completion(None).after_completion(Some(soon)).flush_report() == Some(
            state.counter + 2,
        ),
        state.after_completion(None).after_completion(Some(soon)).after_completion(
            Some(late),
        ).flush_report() is None,
{
    let waits = seq![0nat, soon, late];
    let s1 = state.after_completion(None);
    let s2 = s1.after_completion(Some(soon));
    let s3 = s2.after_completion(Some(late));
    let w1 = waits.drop_first();
    let w2 = w1.drop_first();
    let w3 = w2.drop_first();
    assert(w1 =~= seq![soon, late]);
    assert(w2 =~= seq![late]);
    assert(w3 =~= Seq::<nat>::empty());
    assert(reports_of(s3, w3) =~= Seq::<Option<nat>>::empty());
    assert(reports_of(s2, w2) =~= seq![Some(state.counter + 3)]);
    assert(reports_of(s1, w1) =~= seq![None, Some(state.counter + 3)]);
    assert(reports_of(state, waits) =~= seq![
        Some(state.counter + 1),
        None,
        Some(state.counter + 3),
    ]);
}

/// Where a line of output goes.
#[derive(Clone, Copy, Debug, PartialEq, Eq, Structural)]
pub enum Stream {
    Stdout,
    Stderr,
}

/// The colour of a report.
#[derive(Clone, Copy, Debug, PartialEq, Eq, Structural)]
pub enum Color {
    Green,
    Red,
    Yellow,
}

/// Something to write to the console.
#[derive(Debug)]
pub enum ConsoleOutput {
    /// A console message, written as it is to `stream`.
    Raw { stream: Stream, text: String },
    /// A report with its time and scope, written to standard output in
    /// `color` where colours are in use.
    Report { line: String, color: Color },
}

/// An output, apart from how it is stored.
pub enum OutputView {
    Raw { stream: Stream, text: Seq<char> },
    Report { line: Seq<char>, color: Color },
}

impl View for ConsoleOutput {
    type V = OutputView;

    open spec fn view(&self) -> OutputView {
        match self {
            ConsoleOutput::Raw { stream, text } => OutputView::Raw { stream: *stream, text: text@ },
            ConsoleOutput::Report { line, color } => OutputView::Report { line: line@, color: *color },
        }
    }
}

/// The current local time of day as hours, minutes, seconds and
/// milliseconds, by `chrono::Local::now` and `chrono::NaiveTime::format`. It
/// depends on the moment of the call and on the time zone of the machine, so
/// nothing is stated of it.
#[verifier::external_body]
fn now_str() -> String {
    chrono::Local::now().time().format("%H:%M:%S%.3f").to_string()
}

/// `count` spaces.
pub open spec fn spaces(count: nat) -> Seq<char> {
    Seq::new(count, |i: int| ' ')
}

/// `text` with spaces before it, so that it is at least `width` characters
/// long.
pub open spec fn padded_left(text: Seq<char>, width: nat) -> Seq<char> {
    if text.len() >= width {
        text
    } else {
        spaces((width - text.len()) as nat) + text
    }
}

/// The line of a report: the time and the scope in square brackets, the scope
/// aligned to the right in five characters, then the message and a newline.
pub open spec fn report_line(now: Seq<char>, scope: Seq<char>, msg: Seq<char>) -> Seq<char> {
    "["@ + now + " "@ + padded_left(scope, 5) + "] "@ + msg + "\n"@
}

/// The message of a report on completed jobs.
pub open spec fn jobs_completed_message(total: u64) -> Seq<char> {
    "Jobs completed: "@ + decimal(total as nat)
}

/// Puts spaces before `text` so that it is at least `width` characters long.
pub fn pad_left(text: &str, width: usize) -> (padded: String)
    ensures
        padded@ == padded_left(text@, width as nat),
{
    let len = text.unicode_len();
    let mut padded = String::new();
    if len < width {
        let missing = width - len;
        let mut i: usize = 0;
        proof {
            reveal_strlit(" ");
        }
        while i < missing
            invariant
                i <= missing,
                padded@ == spaces(i as nat),
                " "@ == seq![' '],
            decreases missing - i,
        {
            padded.append(" ");
            assert(padded@ =~= spaces((i + 1) as nat));
            i = i + 1;
        }
        padded.append(text);
    } else {
        padded.append(text);
        assert(padded@ =~= text@);
    }
    padded
}

/// Builds the line of a report for the time `now`.
pub fn print_raw_report(now: &str, scope: &str, msg: &str) -> (line: String)
    ensures
        line@ == report_line(now@, scope@, msg@),
{
    let mut line = String::from_str("[");
    line.append(now);
    line.append(" ");
    let scope = pad_left(scope, 5);
    line.append(scope.as_str());
    line.append("] ");
    line.append(msg);
    line.append("\n");
    line
}

/// A reporter, apart from how it is stored.
pub struct ConsoleState {
    pub tracker: TrackerState,
    pub output: Seq<OutputView>,
}

/// Reports activities for standard output and console messages for standard
/// output and standard error. What is to be written waits in the reporter
/// until it is taken out.
#[derive(Debug)]
pub struct ConsoleReporter {
    tracker: JobCompletionTracker,
    output: Vec<ConsoleOutput>,
}

impl View for ConsoleReporter {
    type V = ConsoleState;

    closed spec fn view(&self) -> ConsoleState {
        ConsoleState { tracker: self.tracker@, output: self.output@.map_values(|o: ConsoleOutput| o@) }
    }
}

/// Whether `output` is a report with the given scope, message and colour, for
/// some time of day.
pub open spec fn is_report(output: OutputView, scope: Seq<char>, msg: Seq<char>, color: Color) -> bool {
    output matches OutputView::Report { line, color: c } && c == color && exists|now: Seq<char>|
        line == #[trigger] report_line(now, scope, msg)
}

impl ConsoleReporter {
    /// The clock reading at which completed jobs were last reported, if they
    /// were.
    pub closed spec fn last_report_at(&self) -> Option<Instant> {
        self.tracker.last_report_at()
    }

    /// A reporter that has counted no job and reports completed jobs at most
    /// once every `job_report_delay` milliseconds.
    pub fn new(job_report_delay: u64) -> (reporter: Self)
        ensures
            reporter@.output == Seq::<OutputView>::empty(),
            reporter@.tracker == (TrackerState {
                delay: job_report_delay as nat,
                counter: 0,
                last_total: None,
            }),
            reporter.last_report_at() is None,
    {
        let reporter = Self { tracker: JobCompletionTracker::new(0, job_report_delay), output: Vec::new() };
        assert(reporter@.output =~= Seq::<OutputView>::empty());
        reporter
    }

    /// Whether `output` is what is queued after a job was completed in the
    /// state `before`, `waited` after the last report.
    pub open spec fn job_outcome(
        before: ConsoleState,
        waited: Option<nat>,
        output: Seq<OutputView>,
    ) -> bool {
        if before.tracker.reports(waited) {
            output.len() == before.output.len() + 1 && output.drop_last() == before.output
                && is_report(
                output.last(),
                "STATS"@,
                jobs_completed_message((before.tracker.counter + 1) as u64),
                Color::Yellow,
            )
        } else {
            output == before.output
        }
    }

    /// The number of jobs completed so far.
    pub fn counter(&self) -> (total: u64)
        ensures
            total == self@.tracker.counter,
    {
        self.tracker.counter()
    }

    /// Queues a report with the current time.
    fn report(&mut self, scope: &str, msg: &str, color: Color)
        ensures
            final(self)@.tracker == old(self)@.tracker,
            final(self).last_report_at() == old(self).last_report_at(),
            final(self)@.output.len() == old(self)@.output.len() + 1,
            final(self)@.output.drop_last() == old(self)@.output,
            is_report(final(self)@.output.last(), scope@, msg@, color),
    {
        let now = now_str();
        let line = print_raw_report(now.as_str(), scope, msg);
        assert(line@ == report_line(now@, scope@, msg@));
        self.output.push(ConsoleOutput::Report { line, color });
        assert(self@.output.drop_last() =~= old(self)@.output);
    }

    /// Queues the report that `total` jobs have been completed.
    fn print_jobs_completed(&mut self, total: u64)
        ensures
            final(self)@.tracker == old(self)@.tracker,
            final(self).last_report_at() == old(self).last_report_at(),
            final(self)@.output.len() == old(self)@.output.len() + 1,
            final(self)@.output.drop_last() == old(self)@.output,
            is_report(final(self)@.output.last(), "STATS"@, jobs_completed_message(total), Color::Yellow),
    {
        let mut msg = String::from_str("Jobs completed: ");
        msg.append(u64_to_string(total).as_str());
        self.report("STATS", msg.as_str(), Color::Yellow);
    }

    /// Takes out what waits to be written, oldest first.
    pub fn take_output(&mut self) -> (output: Vec<ConsoleOutput>)
        ensures
            output@.map_values(|o: ConsoleOutput| o@) == old(self)@.output,
            final(self)@.output == Seq::<OutputView>::empty(),
            final(self)@.tracker == old(self)@.tracker,
            final(self).last_report_at() == old(self).last_report_at(),
    {
        let mut output: Vec<ConsoleOutput> = Vec::new();
        std::mem::swap(&mut output, &mut self.output);
        assert(self@.output =~= Seq::<OutputView>::empty());
        output
    }

    /// Ends the reporting: where jobs were completed since the last report,
    /// the total is reported once more.
    pub fn finish(&mut self)
        ensures
            final(self)@.tracker == old(self)@.tracker,
            final(self).last_report_at() == old(self).last_report_at(),
            match old(self)@.tracker.flush_report() {
                Some(total) => final(self)@.output.len() == old(self)@.output.len() + 1 && final(self)@.output.drop_last() == old(self)@.output && is_report(
                    final(self)@.output.last(),
                    "STATS"@,
                    jobs_completed_message(total as u64),
                    Color::Yellow,
                ),
                None => final(self)@.output == old(self)@.output,
            },
    {
        match self.tracker.pending_flush() {
            Some(total) => self.print_jobs_completed(total),
            None => {},
        }
    }
}

impl Reporter for ConsoleReporter {
    /// The counter must not have reached its largest value.
    open spec fn can_count_job(&self) -> bool {
        self@.tracker.counter < u64::MAX
    }

    /// Queues a console message as it is: for standard output up to the level
    /// `Info`, for standard error above it.
    fn log(&mut self, level: LogLevel, msg: &str)
        ensures
            final(self)@ == (ConsoleState {
                output: old(self)@.output.push(
                    OutputView::Raw {
                        stream: if level.spec_rank() <= LogLevel::Info.spec_rank() {
                            Stream::Stdout
                        } else {
                            Stream::Stderr
                        },
                        text: msg@,
                    },
                ),
                ..old(self)@
            }),
            final(self).last_report_at() == old(self).last_report_at(),
    {
        let stream = if level.at_most(LogLevel::Info) {
            Stream::Stdout
        } else {
            Stream::Stderr
        };
        self.output.push(ConsoleOutput::Raw { stream, text: String::from_str(msg) });
        assert(self@.output =~= old(self)@.output.push(OutputView::Raw { stream, text: msg@ }));
    }

    /// Queues a green report of the scope `INFO`.
    fn info_activity(&mut self, msg: &str)
        ensures
            final(self)@.tracker == old(self)@.tracker,
            final(self).last_report_at() == old(self).last_report_at(),
            final(self)@.output.len() == old(self)@.output.len() + 1,
            final(self)@.output.drop_last() == old(self)@.output,
            is_report(final(self)@.output.last(), "INFO"@, msg@, Color::Green),
    {
        self.report("INFO", msg, Color::Green);
    }

    /// Queues a red report of the scope `ERROR`.
    fn error_activity(&mut self, msg: &str)
        ensures
            final(self)@.tracker == old(self)@.tracker,
            final(self).last_report_at() == old(self).last_report_at(),
            final(self)@.output.len() == old(self)@.output.len() + 1,
            final(self)@.output.drop_last() == old(self)@.output,
            is_report(final(self)@.output.last(), "ERROR"@, msg@, Color::Red),
    {
        self.report("ERROR", msg, Color::Red);
    }

    /// Counts one more job and queues a yellow report of the scope `STATS`
    /// with the new total where the tracker reports this completion: always
    /// the first time, later only when the delay has passed since the last
    /// report.
    fn job_completed(&mut self)
        ensures
            exists|waited: Option<nat>, now: Instant| #[trigger]
                follows_completion(
                    old(self)@.tracker,
                    old(self).last_report_at(),
                    waited,
                    now,
                    final(self)@.tracker,
                    final(self).last_report_at(),
                ) && Self::job_outcome(old(self)@, waited, final(self)@.output),
    {
        let waited = self.tracker.waited();
        let now = clock_now();
        match self.tracker.record_completion(waited, now) {
            Some(total) => self.print_jobs_completed(total),
            None => {},
        }
        assert(Self::job_outcome(old(self)@, spec_waited(waited), self@.output));
        assert(follows_completion(
            old(self)@.tracker,
            old(self).last_report_at(),
            spec_waited(waited),
            now,
            self@.tracker,
            self.last_report_at(),
        ));
    }
}

} // verus!
