//! The round state machine: one phase, advanced one line at a time.
//!
//! A line is first searched for the patterns that matter in the current
//! phase, which gives a `LineObservation`. The observation then decides the
//! events to emit and the next phase. The second step is a function of plain
//! values, and everything about it is proved; of the first, the verifier
//! knows what the pattern search is called, not what it finds.

use crate::decimal::{parse_model, parse_u64};
use crate::events::{
    event_views, CeremonyEvent, CeremonyEventView, PatternCaptureError, ShutdownReason,
};
use crate::identity::{
    is_address, AleoPublicKey, ParticipantIdentity, ParticipantIdentityView, ParticipantRole,
};
use crate::matcher::regex_compiles;
use crate::patterns::{
    all_patterns_compile, capture_view, contribution_in, dropped_in, matches_in, round_in,
    ContributionCapture, ContributionCaptureView, DroppedCapture, DroppedCaptureView,
    LinePatterns, PatternCategory, PatternError, RoundCapture, RoundCaptureView,
};
use vstd::prelude::*;

verus! {

/// Where the coordinator stands in its round lifecycle.
#[derive(Clone, Copy, Debug, PartialEq, Eq, Structural)]
pub enum CoordinatorPhase {
    /// The process has just started.
    ProcessStarted,
    /// The round waits for participants before it can start.
    WaitingForParticipants(u64),
    /// The round has started and is running.
    RoundRunning(u64),
    /// Contributions and verifications are done; chunks are aggregated.
    RoundAggregating(u64),
    /// Aggregation is done; the final report is awaited.
    WaitingForFinish(u64),
    /// The round has finished. The next line, whatever it says, opens the
    /// next round.
    RoundFinished(u64),
}

impl CoordinatorPhase {
    /// The round of the phase; 0 before the first round.
    pub open spec fn round(self) -> nat {
        match self {
            CoordinatorPhase::ProcessStarted => 0,
            CoordinatorPhase::WaitingForParticipants(round) => round as nat,
            CoordinatorPhase::RoundRunning(round) => round as nat,
            CoordinatorPhase::RoundAggregating(round) => round as nat,
            CoordinatorPhase::WaitingForFinish(round) => round as nat,
            CoordinatorPhase::RoundFinished(round) => round as nat,
        }
    }

    /// Whether a next round number exists for the line that follows: false
    /// only for a finished round whose number is the largest of 64 bits.
    pub open spec fn has_successor(self) -> bool {
        self != CoordinatorPhase::RoundFinished(u64::MAX)
    }

    /// Whether a next round number exists for the line that follows.
    pub fn can_advance(self) -> (possible: bool)
        ensures
            possible == self.has_successor(),
    {
        match self {
            CoordinatorPhase::RoundFinished(round) => round < u64::MAX,
            _ => true,
        }
    }
}

/// What the patterns found in one line. A pattern that was not searched
/// for counts as not found.
#[derive(Clone, Debug, PartialEq, Eq)]
pub struct LineObservation {
    pub boot_completion: bool,
    pub round_started: Option<RoundCapture>,
    pub round_started_aggregation: Option<RoundCapture>,
    pub round_aggregated: Option<RoundCapture>,
    pub round_finished: Option<RoundCapture>,
    pub participant_dropped: Option<DroppedCapture>,
    pub successful_contribution: Option<ContributionCapture>,
    pub round_restarted_no_contributors: bool,
}

/// The model of an observation, over which contracts are stated.
pub struct LineObservationView {
    pub boot_completion: bool,
    pub round_started: Option<RoundCaptureView>,
    pub round_started_aggregation: Option<RoundCaptureView>,
    pub round_aggregated: Option<RoundCaptureView>,
    pub round_finished: Option<RoundCaptureView>,
    pub participant_dropped: Option<DroppedCaptureView>,
    pub successful_contribution: Option<ContributionCaptureView>,
    pub round_restarted_no_contributors: bool,
}

impl View for LineObservation {
    type V = LineObservationView;

    open spec fn view(&self) -> LineObservationView {
        LineObservationView {
            boot_completion: self.boot_completion,
            round_started: capture_view(self.round_started),
            round_started_aggregation: capture_view(self.round_started_aggregation),
            round_aggregated: capture_view(self.round_aggregated),
            round_finished: capture_view(self.round_finished),
            participant_dropped: capture_view(self.participant_dropped),
            successful_contribution: capture_view(self.successful_contribution),
            round_restarted_no_contributors: self.round_restarted_no_contributors,
        }
    }
}

impl LineObservationView {
    /// The observation in which no pattern was found.
    pub open spec fn nothing() -> LineObservationView {
        LineObservationView {
            boot_completion: false,
            round_started: None,
            round_started_aggregation: None,
            round_aggregated: None,
            round_finished: None,
            participant_dropped: None,
            successful_contribution: None,
            round_restarted_no_contributors: false,
        }
    }
}

impl LineObservation {
    /// The observation in which no pattern was found.
    pub fn nothing() -> (observation: LineObservation)
        ensures
            observation@ == LineObservationView::nothing(),
    {
        LineObservation {
            boot_completion: false,
            round_started: None,
            round_started_aggregation: None,
            round_aggregated: None,
            round_finished: None,
            participant_dropped: None,
            successful_contribution: None,
            round_restarted_no_contributors: false,
        }
    }
}

/// What a line shows in a phase: the patterns of that phase are searched
/// for, the others are not.
pub open spec fn observed(phase: CoordinatorPhase, line: Seq<char>) -> LineObservationView {
    let nothing = LineObservationView::nothing();
    match phase {
        CoordinatorPhase::ProcessStarted => LineObservationView {
            boot_completion: matches_in(PatternCategory::BootCompletion, line),
            ..nothing
        },
        CoordinatorPhase::WaitingForParticipants(_) => LineObservationView {
            participant_dropped: dropped_in(line),
            round_started: round_in(PatternCategory::RoundStarted, line),
            ..nothing
        },
        CoordinatorPhase::RoundRunning(_) => LineObservationView {
            participant_dropped: dropped_in(line),
            round_started_aggregation: round_in(PatternCategory::RoundStartedAggregation, line),
            round_restarted_no_contributors: matches_in(
                PatternCategory::RoundRestartedNoContributors,
                line,
            ),
            successful_contribution: contribution_in(line),
            ..nothing
        },
        CoordinatorPhase::RoundAggregating(_) => LineObservationView {
            round_aggregated: round_in(PatternCategory::RoundAggregated, line),
            ..nothing
        },
        CoordinatorPhase::WaitingForFinish(_) => LineObservationView {
            round_finished: round_in(PatternCategory::RoundFinished, line),
            ..nothing
        },
        CoordinatorPhase::RoundFinished(_) => nothing,
    }
}

/// The number that an optional capture denotes.
pub open spec fn number_of(text: Option<Seq<char>>) -> Option<u64> {
    match text {
        Some(digits) => parse_model(digits),
        None => None,
    }
}

/// The address that an optional capture holds, where it is well formed.
pub open spec fn address_of(text: Option<Seq<char>>) -> Option<Seq<char>> {
    match text {
        Some(address) => if is_address(address) {
            Some(address)
        } else {
            None
        },
        None => None,
    }
}

/// The role that an optional capture names.
pub open spec fn role_of(text: Option<Seq<char>>) -> Option<ParticipantRole> {
    match text {
        Some(token) => ParticipantRole::of_token(token),
        None => None,
    }
}

/// The participant that a dropped-participant capture names. The address
/// is read first, then the role.
pub open spec fn dropped_participant(capture: DroppedCaptureView) -> Result<
    ParticipantIdentityView,
    PatternCaptureError,
> {
    match address_of(capture.address) {
        None => Err(PatternCaptureError::AddressParseError),
        Some(address) => match role_of(capture.participant_type) {
            None => Err(PatternCaptureError::UnknownRoleError),
            Some(role) => Ok(ParticipantIdentityView { address, role }),
        },
    }
}

/// The contributor and the chunk that a contribution capture names. The
/// chunk is read first, then the address.
pub open spec fn contribution_of(capture: ContributionCaptureView) -> Result<
    (ParticipantIdentityView, u64),
    PatternCaptureError,
> {
    match number_of(capture.chunk) {
        None => Err(PatternCaptureError::NumberParseError),
        Some(chunk) => match address_of(capture.address) {
            None => Err(PatternCaptureError::AddressParseError),
            Some(address) => Ok(
                (ParticipantIdentityView { address, role: ParticipantRole::Contributor }, chunk),
            ),
        },
    }
}

/// What one line does to the machine.
#[derive(Debug, PartialEq, Eq)]
pub struct Transition {
    /// The phase after the line.
    pub next: CoordinatorPhase,
    /// The events that the line gives rise to, in order. Where the line
    /// fails, these are the events derived before the failure.
    pub events: Vec<CeremonyEvent>,
    /// Why the rest of the line was given up, if it was.
    pub failure: Option<PatternCaptureError>,
}

/// The model of a transition, over which contracts are stated.
pub struct TransitionView {
    pub next: CoordinatorPhase,
    pub events: Seq<CeremonyEventView>,
    pub failure: Option<PatternCaptureError>,
}

impl View for Transition {
    type V = TransitionView;

    open spec fn view(&self) -> TransitionView {
        TransitionView {
            next: self.next,
            events: event_views(self.events@),
            failure: self.failure,
        }
    }
}

impl TransitionView {
    /// The transition that stays in `phase` and emits nothing.
    pub open spec fn stay(phase: CoordinatorPhase) -> TransitionView {
        TransitionView { next: phase, events: seq![], failure: None }
    }

    /// This transition with one more event and a new phase.
    pub open spec fn emit(
        self,
        event: CeremonyEventView,
        next: CoordinatorPhase,
    ) -> TransitionView {
        TransitionView { next, events: self.events.push(event), failure: None }
    }

    /// This transition, given up for `error`.
    pub open spec fn fail(self, error: PatternCaptureError) -> TransitionView {
        TransitionView { next: self.next, events: self.events, failure: Some(error) }
    }

    /// The check for a dropped participant, unless the line was given up.
    pub open spec fn check_participant_dropped(
        self,
        capture: Option<DroppedCaptureView>,
    ) -> TransitionView {
        if self.failure is Some {
            self
        } else {
            match capture {
                None => self,
                Some(found) => match dropped_participant(found) {
                    Ok(participant) => self.emit(
                        CeremonyEventView::ParticipantDropped(participant),
                        self.next,
                    ),
                    Err(error) => self.fail(error),
                },
            }
        }
    }

    /// The check for a round phrase, unless the line was given up: where
    /// the phrase was found and its round is a number, `event` is emitted
    /// and the machine moves to `next`.
    pub open spec fn check_round_phrase(
        self,
        capture: Option<RoundCaptureView>,
        event: CeremonyEventView,
        next: CoordinatorPhase,
    ) -> TransitionView {
        if self.failure is Some {
            self
        } else {
            match capture {
                None => self,
                Some(found) => if number_of(found.round) is Some {
                    self.emit(event, next)
                } else {
                    self.fail(PatternCaptureError::NumberParseError)
                },
            }
        }
    }

    /// The check for a round left without contributors, unless the line
    /// was given up.
    pub open spec fn check_no_contributors(self, found: bool, round: u64) -> TransitionView {
        if self.failure is None && found {
            self.emit(
                CeremonyEventView::ShutdownRequested(ShutdownReason::TestFinished),
                CoordinatorPhase::RoundFinished(round),
            )
        } else {
            self
        }
    }

    /// The check for a successful contribution, unless the line was given
    /// up.
    pub open spec fn check_contribution(
        self,
        capture: Option<ContributionCaptureView>,
    ) -> TransitionView {
        if self.failure is Some {
            self
        } else {
            match capture {
                None => self,
                Some(found) => match contribution_of(found) {
                    Ok((contributor, chunk)) => self.emit(
                        CeremonyEventView::SuccessfulContribution { contributor, chunk },
                        self.next,
                    ),
                    Err(error) => self.fail(error),
                },
            }
        }
    }
}

/// What an observation does to the machine in a phase.
///
/// - Just started: the coordinator's boot opens round 1, which waits for
///   participants.
/// - Waiting for participants: a dropped participant is reported; then the
///   start of the round is, and the round runs.
/// - Running: a dropped participant is reported; then the start of the
///   aggregation, and the round aggregates; then that no contributors
///   remain, which asks for the shutdown and finishes the round; then a
///   successful contribution. Each of the four is looked for, in this
///   order, until one fails.
/// - Aggregating: the end of the aggregation is reported, and the round
///   waits for its finish.
/// - Waiting for the finish: the finish is reported, and the round is
///   finished.
/// - Finished: whatever was observed, the next round waits for
///   participants.
///
/// The round of an event is the round of the phase, never the number that
/// the line names. A phrase that is found and cannot be read stops the
/// line with the events and the phase reached so far.
pub open spec fn transition_of(
    phase: CoordinatorPhase,
    seen: LineObservationView,
) -> TransitionView {
    let stay = TransitionView::stay(phase);
    match phase {
        CoordinatorPhase::ProcessStarted => if seen.boot_completion {
            stay.emit(
                CeremonyEventView::RoundWaitingForParticipants(1),
                CoordinatorPhase::WaitingForParticipants(1),
            )
        } else {
            stay
        },
        CoordinatorPhase::WaitingForParticipants(round) => stay.check_participant_dropped(
            seen.participant_dropped,
        ).check_round_phrase(
            seen.round_started,
            CeremonyEventView::RoundStarted(round),
            CoordinatorPhase::RoundRunning(round),
        ),
        CoordinatorPhase::RoundRunning(round) => stay.check_participant_dropped(
            seen.participant_dropped,
        ).check_round_phrase(
            seen.round_started_aggregation,
            CeremonyEventView::RoundStartedAggregation(round),
            CoordinatorPhase::RoundAggregating(round),
        ).check_no_contributors(seen.round_restarted_no_contributors, round).check_contribution(
            seen.successful_contribution,
        ),
        CoordinatorPhase::RoundAggregating(round) => stay.check_round_phrase(
            seen.round_aggregated,
            CeremonyEventView::RoundAggregated(round),
            CoordinatorPhase::WaitingForFinish(round),
        ),
        CoordinatorPhase::WaitingForFinish(round) => stay.check_round_phrase(
            seen.round_finished,
            CeremonyEventView::RoundFinished(round),
            CoordinatorPhase::RoundFinished(round),
        ),
        CoordinatorPhase::RoundFinished(round) => stay.emit(
            CeremonyEventView::RoundWaitingForParticipants((round + 1) as u64),
            CoordinatorPhase::WaitingForParticipants((round + 1) as u64),
        ),
    }
}

/// Reads the number of an optional capture.
fn read_number(text: &Option<String>) -> (number: Option<u64>)
    ensures
        number == number_of(text.deep_view()),
{
    match text {
        Some(digits) => parse_u64(digits.as_str()),
        None => None,
    }
}

/// Reads the address of an optional capture.
fn read_address(text: &Option<String>) -> (address: Option<AleoPublicKey>)
    ensures
        address is Some <==> address_of(text.deep_view()) is Some,
        address matches Some(key) ==> address_of(text.deep_view()) == Some(key@),
{
    match text {
        Some(written) => AleoPublicKey::from_str(written.as_str()),
        None => None,
    }
}

/// Reads the role of an optional capture.
fn read_role(text: &Option<String>) -> (role: Option<ParticipantRole>)
    ensures
        role == role_of(text.deep_view()),
{
    match text {
        Some(token) => ParticipantRole::from_token(token.as_str()),
        None => None,
    }
}

/// Reads the participant that a dropped-participant capture names.
pub fn read_dropped(capture: &DroppedCapture) -> (read: Result<
    ParticipantIdentity,
    PatternCaptureError,
>)
    ensures
        match read {
            Ok(participant) => dropped_participant(capture@) == Ok::<
                ParticipantIdentityView,
                PatternCaptureError,
            >(participant@),
            Err(error) => dropped_participant(capture@) == Err::<
                ParticipantIdentityView,
                PatternCaptureError,
            >(error),
        },
{
    match read_address(&capture.address) {
        None => Err(PatternCaptureError::AddressParseError),
        Some(address) => match read_role(&capture.participant_type) {
            None => Err(PatternCaptureError::UnknownRoleError),
            Some(role) => Ok(ParticipantIdentity { address, role }),
        },
    }
}

/// Reads the contributor and the chunk that a contribution capture names.
pub fn read_contribution(capture: &ContributionCapture) -> (read: Result<
    (ParticipantIdentity, u64),
    PatternCaptureError,
>)
    ensures
        match read {
            Ok((contributor, chunk)) => contribution_of(capture@) == Ok::<
                (ParticipantIdentityView, u64),
                PatternCaptureError,
            >((contributor@, chunk)),
            Err(error) => contribution_of(capture@) == Err::<
                (ParticipantIdentityView, u64),
                PatternCaptureError,
            >(error),
        },
{
    match read_number(&capture.chunk) {
        None => Err(PatternCaptureError::NumberParseError),
        Some(chunk) => match read_address(&capture.address) {
            None => Err(PatternCaptureError::AddressParseError),
            Some(address) => Ok(
                (ParticipantIdentity { address, role: ParticipantRole::Contributor }, chunk),
            ),
        },
    }
}

impl Transition {
    fn stay(phase: CoordinatorPhase) -> (out: Transition)
        ensures
            out@ == TransitionView::stay(phase),
    {
        let out = Transition { next: phase, events: Vec::new(), failure: None };
        assert(out@.events =~= seq![]);
        out
    }

    fn emit(self, event: CeremonyEvent, next: CoordinatorPhase) -> (out: Transition)
        ensures
            out@ == self@.emit(event@, next),
    {
        let mut events = self.events;
        events.push(event);
        assert(event_views(events@) =~= event_views(self.events@).push(event@));
        Transition { next, events, failure: None }
    }

    fn fail(self, error: PatternCaptureError) -> (out: Transition)
        ensures
            out@ == self@.fail(error),
    {
        Transition { next: self.next, events: self.events, failure: Some(error) }
    }

    fn check_participant_dropped(self, capture: &Option<DroppedCapture>) -> (out: Transition)
        ensures
            out@ == self@.check_participant_dropped(capture_view(*capture)),
    {
        if self.failure.is_some() {
            return self;
        }
        match capture {
            None => self,
            Some(found) => match read_dropped(found) {
                Ok(participant) => {
                    let next = self.next;
                    self.emit(CeremonyEvent::ParticipantDropped(participant), next)
                },
                Err(error) => self.fail(error),
            },
        }
    }

    fn check_round_phrase(
        self,
        capture: &Option<RoundCapture>,
        event: CeremonyEvent,
        next: CoordinatorPhase,
    ) -> (out: Transition)
        ensures
            out@ == self@.check_round_phrase(capture_view(*capture), event@, next),
    {
        if self.failure.is_some() {
            return self;
        }
        match capture {
            None => self,
            Some(found) => match read_number(&found.round) {
                Some(_) => self.emit(event, next),
                None => self.fail(PatternCaptureError::NumberParseError),
            },
        }
    }

    fn check_no_contributors(self, found: bool, round: u64) -> (out: Transition)
        ensures
            out@ == self@.check_no_contributors(found, round),
    {
        if self.failure.is_none() && found {
            self.emit(
                CeremonyEvent::ShutdownRequested(ShutdownReason::TestFinished),
                CoordinatorPhase::RoundFinished(round),
            )
        } else {
            self
        }
    }

    fn check_contribution(self, capture: &Option<ContributionCapture>) -> (out: Transition)
        ensures
            out@ == self@.check_contribution(capture_view(*capture)),
    {
        if self.failure.is_some() {
            return self;
        }
        match capture {
            None => self,
            Some(found) => match read_contribution(found) {
                Ok((contributor, chunk)) => {
                    let next = self.next;
                    self.emit(CeremonyEvent::SuccessfulContribution { contributor, chunk }, next)
                },
                Err(error) => self.fail(error),
            },
        }
    }
}

/// Decides what an observation does to the machine in a phase: the events
/// to emit, the phase to move to and, where a capture cannot be read, the
/// failure that ends the line.
pub fn transition(phase: CoordinatorPhase, seen: &LineObservation) -> (out: Transition)
    requires
        phase.has_successor(),
    ensures
        out@ == transition_of(phase, seen@),
{
    let stay = Transition::stay(phase);
    match phase {
        CoordinatorPhase::ProcessStarted => {
            if seen.boot_completion {
                stay.emit(
                    CeremonyEvent::RoundWaitingForParticipants(1),
                    CoordinatorPhase::WaitingForParticipants(1),
                )
            } else {
                stay
            }
        },
        CoordinatorPhase::WaitingForParticipants(round) => stay.check_participant_dropped(
            &seen.participant_dropped,
        ).check_round_phrase(
            &seen.round_started,
            CeremonyEvent::RoundStarted(round),
            CoordinatorPhase::RoundRunning(round),
        ),
        CoordinatorPhase::RoundRunning(round) => stay.check_participant_dropped(
            &seen.participant_dropped,
        ).check_round_phrase(
            &seen.round_started_aggregation,
            CeremonyEvent::RoundStartedAggregation(round),
            CoordinatorPhase::RoundAggregating(round),
        ).check_no_contributors(seen.round_restarted_no_contributors, round).check_contribution(
            &seen.successful_contribution,
        ),
        CoordinatorPhase::RoundAggregating(round) => stay.check_round_phrase(
            &seen.round_aggregated,
            CeremonyEvent::RoundAggregated(round),
            CoordinatorPhase::WaitingForFinish(round),
        ),
        CoordinatorPhase::WaitingForFinish(round) => stay.check_round_phrase(
            &seen.round_finished,
            CeremonyEvent::RoundFinished(round),
            CoordinatorPhase::RoundFinished(round),
        ),
        CoordinatorPhase::RoundFinished(round) => stay.emit(
            CeremonyEvent::RoundWaitingForParticipants(round + 1),
            CoordinatorPhase::WaitingForParticipants(round + 1),
        ),
    }
}

/// What a line does to the machine in a phase: the line is searched for the
/// patterns of the phase, and what is found decides.
pub open spec fn line_transition(phase: CoordinatorPhase, line: Seq<char>) -> TransitionView {
    transition_of(phase, observed(phase, line))
}

/// Searches a line for the patterns that matter in `phase`, and for no
/// others.
pub fn observe(patterns: &LinePatterns, phase: CoordinatorPhase, line: &str) -> (seen:
    LineObservation)
    ensures
        seen@ == observed(phase, line@),
{
    let mut seen = LineObservation::nothing();
    match phase {
        CoordinatorPhase::ProcessStarted => {
            seen.boot_completion = patterns.is_match(PatternCategory::BootCompletion, line);
        },
        CoordinatorPhase::WaitingForParticipants(_) => {
            seen.participant_dropped = patterns.capture_dropped(line);
            seen.round_started = patterns.capture_round(PatternCategory::RoundStarted, line);
        },
        CoordinatorPhase::RoundRunning(_) => {
            seen.participant_dropped = patterns.capture_dropped(line);
            seen.round_started_aggregation = patterns.capture_round(
                PatternCategory::RoundStartedAggregation,
                line,
            );
            seen.round_restarted_no_contributors = patterns.is_match(
                PatternCategory::RoundRestartedNoContributors,
                line,
            );
            seen.successful_contribution = patterns.capture_contribution(line);
        },
        CoordinatorPhase::RoundAggregating(_) => {
            seen.round_aggregated = patterns.capture_round(PatternCategory::RoundAggregated, line);
        },
        CoordinatorPhase::WaitingForFinish(_) => {
            seen.round_finished = patterns.capture_round(PatternCategory::RoundFinished, line);
        },
        CoordinatorPhase::RoundFinished(_) => {},
    }
    seen
}

/// A line that matched a pattern and could not be read.
#[derive(Debug, PartialEq, Eq)]
pub struct LineFailure {
    /// The events that the line gave rise to before it failed, in order.
    pub emitted: Vec<CeremonyEvent>,
    /// Why the line failed.
    pub error: PatternCaptureError,
}

/// The round state machine: the pattern table and the current phase.
pub struct CoordinatorStateReporter {
    patterns: LinePatterns,
    current_state: CoordinatorPhase,
}

impl CoordinatorStateReporter {
    /// The phase that the machine is in.
    pub closed spec fn phase(&self) -> CoordinatorPhase {
        self.current_state
    }

    /// A machine for a coordinator process that has just started. It is
    /// built exactly when the `regex` crate accepts every pattern of the
    /// table; else the error names the first pattern that is refused.
    pub fn process_started() -> (reporter: Result<CoordinatorStateReporter, PatternError>)
        ensures
            reporter is Ok <==> all_patterns_compile(),
            reporter matches Ok(machine) ==> machine.phase() == CoordinatorPhase::ProcessStarted,
            reporter matches Err(error) ==> !regex_compiles(error.category.text()),
    {
        CoordinatorStateReporter::in_phase(CoordinatorPhase::ProcessStarted)
    }

    /// A machine that takes up the lifecycle in `phase`.
    pub fn in_phase(phase: CoordinatorPhase) -> (reporter: Result<
        CoordinatorStateReporter,
        PatternError,
    >)
        ensures
            reporter is Ok <==> all_patterns_compile(),
            reporter matches Ok(machine) ==> machine.phase() == phase,
            reporter matches Err(error) ==> !regex_compiles(error.category.text()),
    {
        match LinePatterns::new() {
            Ok(patterns) => Ok(CoordinatorStateReporter { patterns, current_state: phase }),
            Err(error) => Err(error),
        }
    }

    /// The phase that the machine is in.
    pub fn current_state(&self) -> (phase: CoordinatorPhase)
        ensures
            phase == self.phase(),
    {
        self.current_state
    }

    /// Takes one line of the coordinator's output: searches it for the
    /// patterns of the current phase, moves to the phase that follows and
    /// gives the events to publish, in order. A line whose capture cannot be
    /// read fails; the failure carries the events derived before it.
    pub fn parse_output_line(&mut self, line: &str) -> (parsed: Result<
        Vec<CeremonyEvent>,
        LineFailure,
    >)
        requires
            old(self).phase().has_successor(),
        ensures
            final(self).phase() == line_transition(old(self).phase(), line@).next,
            match parsed {
                Ok(events) => {
                    &&& line_transition(old(self).phase(), line@).failure is None
                    &&& event_views(events@) == line_transition(old(self).phase(), line@).events
                },
                Err(failure) => {
                    &&& line_transition(old(self).phase(), line@).failure == Some(failure.error)
                    &&& event_views(failure.emitted@) == line_transition(
                        old(self).phase(),
                        line@,
                    ).events
                },
            },
    {
        let seen = observe(&self.patterns, self.current_state, line);
        let out = transition(self.current_state, &seen);
        self.current_state = out.next;
        match out.failure {
            None => Ok(out.events),
            Some(error) => Err(LineFailure { emitted: out.events, error }),
        }
    }
}

} // verus!
