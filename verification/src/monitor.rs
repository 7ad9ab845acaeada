//! The decisions of the monitoring loop.
//!
//! Reading the coordinator's output, publishing events and writing the
//! archive log are the caller's work. What to publish, what to archive, what
//! to report and when to stop is decided here, one read at a time, and for a
//! whole session at once.

use crate::events::{
    event_views, lemma_rounds_join, rounds_ascend, rounds_within, CeremonyEvent,
    CeremonyEventView, PatternCaptureError,
};
use crate::lifecycle::lemma_transition_in_order;
use crate::machine::{line_transition, observed, CoordinatorPhase, CoordinatorStateReporter};
use crate::matcher::regex_compiles;
use crate::patterns::{all_patterns_compile, PatternError};
use vstd::prelude::*;
use vstd::string::StringExecFns;

verus! {

/// One attempt to read a line of the coordinator's output.
#[derive(Clone, Debug, PartialEq, Eq)]
pub enum LineRead {
    /// The line that was read, without its line ending.
    Line(String),
    /// The read failed; the text says how.
    Failed(String),
}

/// The model of a read, over which contracts are stated.
pub enum LineReadView {
    Line(Seq<char>),
    Failed(Seq<char>),
}

impl View for LineRead {
    type V = LineReadView;

    open spec fn view(&self) -> LineReadView {
        match self {
            LineRead::Line(line) => LineReadView::Line(line@),
            LineRead::Failed(message) => LineReadView::Failed(message@),
        }
    }
}

/// The models of the reads of a list, in order.
pub open spec fn read_views(reads: Seq<LineRead>) -> Seq<LineReadView> {
    reads.map_values(|read: LineRead| read@)
}

/// What the loop has to do for one read.
#[derive(Debug, PartialEq, Eq)]
pub struct MonitorStep {
    /// The events to publish, in order.
    pub publish: Vec<CeremonyEvent>,
    /// The text to append to the archive log, if any.
    pub archive: Option<String>,
    /// The read error to report, if any. It does not stop the loop.
    pub diagnostic: Option<String>,
    /// The failure that stops the loop, if any.
    pub halt: Option<PatternCaptureError>,
}

/// The model of a step, over which contracts are stated.
pub struct MonitorStepView {
    pub publish: Seq<CeremonyEventView>,
    pub archive: Option<Seq<char>>,
    pub diagnostic: Option<Seq<char>>,
    pub halt: Option<PatternCaptureError>,
}

impl View for MonitorStep {
    type V = MonitorStepView;

    open spec fn view(&self) -> MonitorStepView {
        MonitorStepView {
            publish: event_views(self.publish@),
            archive: self.archive.deep_view(),
            diagnostic: self.diagnostic.deep_view(),
            halt: self.halt,
        }
    }
}

/// The entry of the archive log for a line: the line and a line feed.
pub open spec fn archive_entry(line: Seq<char>) -> Seq<char> {
    line + "\n"@
}

/// The step for a read in a phase. A line is handed to the state machine
/// and archived whatever the machine makes of it; a failed read is
/// reported and changes nothing.
pub open spec fn step_of(phase: CoordinatorPhase, read: LineReadView) -> MonitorStepView {
    match read {
        LineReadView::Line(line) => MonitorStepView {
            publish: line_transition(phase, line).events,
            archive: Some(archive_entry(line)),
            diagnostic: None,
            halt: line_transition(phase, line).failure,
        },
        LineReadView::Failed(message) => MonitorStepView {
            publish: seq![],
            archive: None,
            diagnostic: Some(message),
            halt: None,
        },
    }
}

/// The phase after a read in a phase.
pub open spec fn phase_after(phase: CoordinatorPhase, read: LineReadView) -> CoordinatorPhase {
    match read {
        LineReadView::Line(line) => line_transition(phase, line).next,
        LineReadView::Failed(_) => phase,
    }
}

/// Decides what the loop has to do for one read, and advances the state
/// machine by the line if there is one.
pub fn monitor_step(reporter: &mut CoordinatorStateReporter, read: &LineRead) -> (step:
    MonitorStep)
    requires
        read@ is Line ==> old(reporter).phase().has_successor(),
    ensures
        step@ == step_of(old(reporter).phase(), read@),
        final(reporter).phase() == phase_after(old(reporter).phase(), read@),
{
    match read {
        LineRead::Line(line) => {
            let parsed = reporter.parse_output_line(line.as_str());
            let mut entry = line.clone();
            entry.append("\n");
            match parsed {
                Ok(events) => MonitorStep {
                    publish: events,
                    archive: Some(entry),
                    diagnostic: None,
                    halt: None,
                },
                Err(failure) => MonitorStep {
                    publish: failure.emitted,
                    archive: Some(entry),
                    diagnostic: None,
                    halt: Some(failure.error),
                },
            }
        },
        LineRead::Failed(message) => {
            let step = MonitorStep {
                publish: Vec::new(),
                archive: None,
                diagnostic: Some(message.clone()),
                halt: None,
            };
            assert(step@.publish =~= seq![]);
            step
        },
    }
}

/// What a monitoring session came to.
#[derive(Debug, PartialEq, Eq)]
pub struct MonitorReport {
    /// The phase of the state machine at the end.
    pub phase: CoordinatorPhase,
    /// The events to publish, in order.
    pub published: Vec<CeremonyEvent>,
    /// What the session appends to the archive log.
    pub archive: String,
    /// The read errors to report, in order.
    pub diagnostics: Vec<String>,
    /// The failure that ended the session, if one did. A session that ran
    /// to the end of the output has none.
    pub failure: Option<PatternCaptureError>,
}

/// The model of a report, over which contracts are stated.
pub struct MonitorReportView {
    pub phase: CoordinatorPhase,
    pub published: Seq<CeremonyEventView>,
    pub archive: Seq<char>,
    pub diagnostics: Seq<Seq<char>>,
    pub failure: Option<PatternCaptureError>,
}

impl View for MonitorReport {
    type V = MonitorReportView;

    open spec fn view(&self) -> MonitorReportView {
        MonitorReportView {
            phase: self.phase,
            published: event_views(self.published@),
            archive: self.archive@,
            diagnostics: self.diagnostics.deep_view(),
            failure: self.failure,
        }
    }
}

impl MonitorReportView {
    /// The report of a session that has read nothing yet.
    pub open spec fn start(phase: CoordinatorPhase) -> MonitorReportView {
        MonitorReportView {
            phase,
            published: seq![],
            archive: seq![],
            diagnostics: seq![],
            failure: None,
        }
    }

    /// The report after one more read. A session that has failed reads no
    /// further.
    pub open spec fn after(self, read: LineReadView) -> MonitorReportView {
        if self.failure is Some {
            self
        } else {
            let step = step_of(self.phase, read);
            MonitorReportView {
                phase: phase_after(self.phase, read),
                published: self.published + step.publish,
                archive: match step.archive {
                    Some(entry) => self.archive + entry,
                    None => self.archive,
                },
                diagnostics: match step.diagnostic {
                    Some(message) => self.diagnostics.push(message),
                    None => self.diagnostics,
                },
                failure: step.halt,
            }
        }
    }
}

/// The report of a session that starts in `phase` and is handed `reads`,
/// one after the other.
pub open spec fn monitored_from(
    phase: CoordinatorPhase,
    reads: Seq<LineReadView>,
) -> MonitorReportView
    decreases reads.len(),
{
    if reads.len() == 0 {
        MonitorReportView::start(phase)
    } else {
        monitored_from(phase, reads.drop_last()).after(reads.last())
    }
}

/// A session is the sum of its steps: the report after one more read is
/// the report before it, with the step for that read added. So the reports
/// of two sessions that start in the same phase and are handed the same
/// reads are the same.
pub proof fn lemma_session_grows_by_steps(
    phase: CoordinatorPhase,
    reads: Seq<LineReadView>,
    read: LineReadView,
)
    ensures
        monitored_from(phase, reads.push(read)) == monitored_from(phase, reads).after(read),
{
    assert(reads.push(read).drop_last() =~= reads);
}

/// A session that has failed stays as it is, whatever is read after.
pub proof fn lemma_failure_ends_session(phase: CoordinatorPhase, reads: Seq<LineReadView>, k: int)
    requires
        0 <= k <= reads.len(),
        monitored_from(phase, reads.take(k)).failure is Some,
    ensures
        monitored_from(phase, reads) == monitored_from(phase, reads.take(k)),
    decreases reads.len(),
{
    if k == reads.len() {
        assert(reads.take(k) =~= reads);
    } else {
        assert(reads.drop_last().take(k) =~= reads.take(k));
        lemma_failure_ends_session(phase, reads.drop_last(), k);
    }
}

/// Whether the session never asks for the round after the last one of 64
/// bits: no line is handed to a machine whose phase has no successor.
pub open spec fn never_runs_out(phase: CoordinatorPhase, reads: Seq<LineReadView>) -> bool
    decreases reads.len(),
{
    if reads.len() == 0 {
        true
    } else {
        let before = monitored_from(phase, reads.drop_last());
        &&& never_runs_out(phase, reads.drop_last())
        &&& (before.failure is None && reads.last() is Line ==> before.phase.has_successor())
    }
}

/// Over a whole session the rounds never go back. For a session that
/// never asks for a round number past the last one, the rounds that the
/// published events name ascend from the round of the phase it started in
/// to the round of the phase it reached, and each read advances the round
/// by one at most.
pub proof fn lemma_rounds_never_decrease(phase: CoordinatorPhase, reads: Seq<LineReadView>)
    requires
        never_runs_out(phase, reads),
    ensures
        rounds_ascend(monitored_from(phase, reads).published),
        rounds_within(
            monitored_from(phase, reads).published,
            phase.round(),
            monitored_from(phase, reads).phase.round(),
        ),
        phase.round() <= monitored_from(phase, reads).phase.round() <= phase.round() + reads.len(),
    decreases reads.len(),
{
    if reads.len() > 0 {
        let before = monitored_from(phase, reads.drop_last());
        lemma_rounds_never_decrease(phase, reads.drop_last());
        if before.failure is None {
            if let LineReadView::Line(line) = reads.last() {
                lemma_transition_in_order(before.phase, observed(before.phase, line));
                lemma_rounds_join(
                    before.published,
                    line_transition(before.phase, line).events,
                    phase.round(),
                    before.phase.round(),
                    line_transition(before.phase, line).next.round(),
                );
            }
        }
    }
}

/// A session with so few reads that the rounds cannot reach the last one
/// never runs out of round numbers. Every session of a fresh machine over
/// a list that fits in memory is of this kind.
pub proof fn lemma_short_session_never_runs_out(phase: CoordinatorPhase, reads: Seq<LineReadView>)
    requires
        phase.round() + reads.len() <= u64::MAX,
    ensures
        never_runs_out(phase, reads),
    decreases reads.len(),
{
    if reads.len() > 0 {
        lemma_short_session_never_runs_out(phase, reads.drop_last());
        lemma_rounds_never_decrease(phase, reads.drop_last());
    }
}

impl MonitorReport {
    fn start(phase: CoordinatorPhase) -> (report: MonitorReport)
        ensures
            report@ == MonitorReportView::start(phase),
    {
        let report = MonitorReport {
            phase,
            published: Vec::new(),
            archive: String::new(),
            diagnostics: Vec::new(),
            failure: None,
        };
        assert(report@.published =~= seq![]);
        assert(report@.diagnostics =~= seq![]);
        report
    }

    /// Adds one step to the report and moves it to the phase reached.
    fn absorb(&mut self, step: MonitorStep, next: CoordinatorPhase)
        ensures
            final(self)@ == (MonitorReportView {
                phase: next,
                published: old(self)@.published + step@.publish,
                archive: match step@.archive {
                    Some(entry) => old(self)@.archive + entry,
                    None => old(self)@.archive,
                },
                diagnostics: match step@.diagnostic {
                    Some(message) => old(self)@.diagnostics.push(message),
                    None => old(self)@.diagnostics,
                },
                failure: step@.halt,
            }),
    {
        let ghost before = self@;
        let MonitorStep { publish, archive, diagnostic, halt } = step;
        let mut publish = publish;
        let ghost added = event_views(publish@);
        self.published.append(&mut publish);
        assert(event_views(self.published@) =~= before.published + added);
        if let Some(entry) = archive {
            self.archive.append(entry.as_str());
        }
        if let Some(message) = diagnostic {
            self.diagnostics.push(message);
            assert(self.diagnostics.deep_view() =~= before.diagnostics.push(message@));
        }
        self.failure = halt;
        self.phase = next;
    }
}

/// Runs a whole monitoring session on what was read of the coordinator's
/// output: a fresh state machine is handed the reads in order, up to the
/// first line that fails or to the end. The report is a function of the
/// reads alone. No report comes back only where the `regex` crate refuses a
/// pattern of the table.
pub fn monitor_coordinator(reads: &Vec<LineRead>) -> (session: Result<MonitorReport, PatternError>)
    ensures
        session is Ok <==> all_patterns_compile(),
        session matches Ok(report) ==> report@ == monitored_from(
            CoordinatorPhase::ProcessStarted,
            read_views(reads@),
        ),
        session matches Err(error) ==> !regex_compiles(error.category.text()),
{
    let mut reporter = match CoordinatorStateReporter::process_started() {
        Ok(machine) => machine,
        Err(error) => {
            return Err(error);
        },
    };
    let ghost start = CoordinatorPhase::ProcessStarted;
    let ghost all = read_views(reads@);
    let mut report = MonitorReport::start(CoordinatorPhase::ProcessStarted);
    let mut i: usize = 0;
    while i < reads.len() && report.failure.is_none()
        invariant
            i <= reads.len(),
            all == read_views(reads@),
            start == CoordinatorPhase::ProcessStarted,
            report@ == monitored_from(start, all.take(i as int)),
            reporter.phase() == report.phase,
            all_patterns_compile(),
        decreases reads.len() - i,
    {
        proof {
            lemma_short_session_never_runs_out(start, all.take(i as int));
            lemma_rounds_never_decrease(start, all.take(i as int));
            assert(all.take(i + 1).drop_last() =~= all.take(i as int));
        }
        let step = monitor_step(&mut reporter, &reads[i]);
        report.absorb(step, reporter.current_state());
        i = i + 1;
    }
    proof {
        if report.failure.is_some() {
            lemma_failure_ends_session(start, all, i as int);
        } else {
            assert(all.take(i as int) =~= all);
        }
    }
    Ok(report)
}

} // verus!
