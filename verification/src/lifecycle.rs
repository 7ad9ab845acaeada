//! What holds of the round state machine on every line.

use crate::events::{
    rounds_ascend, rounds_within, CeremonyEventView, PatternCaptureError, ShutdownReason,
};
use crate::identity::ParticipantIdentityView;
use crate::machine::{
    address_of, dropped_participant, line_transition, role_of, transition_of, CoordinatorPhase,
    LineObservationView, TransitionView,
};
use crate::patterns::{matches_in, PatternCategory};
use vstd::prelude::*;

verus! {

/// Whether the lifecycle lets a machine in phase `from` be in phase `to`
/// one line later: it stays, or takes the next step of the same round; only
/// from a finished round it goes on to the next round, and there it must.
pub open spec fn follows(from: CoordinatorPhase, to: CoordinatorPhase) -> bool {
    match from {
        CoordinatorPhase::ProcessStarted => {
            to == from || to == CoordinatorPhase::WaitingForParticipants(1)
        },
        CoordinatorPhase::WaitingForParticipants(round) => {
            to == from || to == CoordinatorPhase::RoundRunning(round)
        },
        CoordinatorPhase::RoundRunning(round) => {
            to == from || to == CoordinatorPhase::RoundAggregating(round) || to
                == CoordinatorPhase::RoundFinished(round)
        },
        CoordinatorPhase::RoundAggregating(round) => {
            to == from || to == CoordinatorPhase::WaitingForFinish(round)
        },
        CoordinatorPhase::WaitingForFinish(round) => {
            to == from || to == CoordinatorPhase::RoundFinished(round)
        },
        CoordinatorPhase::RoundFinished(round) => {
            round < u64::MAX && to == CoordinatorPhase::WaitingForParticipants((round + 1) as u64)
        },
    }
}

/// No line makes the machine skip a phase: whatever is observed, and
/// whether the line fails or not, the phase reached follows the phase left.
pub proof fn lemma_no_phase_is_skipped(phase: CoordinatorPhase, seen: LineObservationView)
    requires
        phase.has_successor(),
    ensures
        follows(phase, transition_of(phase, seen).next),
{
}

/// A machine that has just started and reads a line that reports the
/// coordinator's boot emits exactly one event, that round 1 waits for
/// participants, and waits with it. Any other line leaves it as it is.
pub proof fn lemma_boot_opens_round_one(line: Seq<char>)
    ensures
        line_transition(CoordinatorPhase::ProcessStarted, line).failure is None,
        matches_in(PatternCategory::BootCompletion, line) ==> {
            &&& line_transition(CoordinatorPhase::ProcessStarted, line).next
                == CoordinatorPhase::WaitingForParticipants(1)
            &&& line_transition(CoordinatorPhase::ProcessStarted, line).events
                == seq![CeremonyEventView::RoundWaitingForParticipants(1)]
        },
        !matches_in(PatternCategory::BootCompletion, line) ==> {
            &&& line_transition(CoordinatorPhase::ProcessStarted, line).next
                == CoordinatorPhase::ProcessStarted
            &&& line_transition(CoordinatorPhase::ProcessStarted, line).events
                == Seq::<CeremonyEventView>::empty()
        },
{
}

/// After a finished round any line at all, the empty one too, opens the
/// next round: exactly one event, that the next round waits for
/// participants, and no failure.
pub proof fn lemma_finished_round_advances(round: u64, line: Seq<char>)
    requires
        round < u64::MAX,
    ensures
        line_transition(CoordinatorPhase::RoundFinished(round), line).next
            == CoordinatorPhase::WaitingForParticipants((round + 1) as u64),
        line_transition(CoordinatorPhase::RoundFinished(round), line).events
            == seq![CeremonyEventView::RoundWaitingForParticipants((round + 1) as u64)],
        line_transition(CoordinatorPhase::RoundFinished(round), line).failure is None,
{
}

/// While a round waits for participants or runs, a line in which nothing
/// is found but a dropped participant that can be read gives one event, for
/// that participant, and leaves the phase as it is.
pub proof fn lemma_dropped_participant_is_reported(
    phase: CoordinatorPhase,
    seen: LineObservationView,
    participant: ParticipantIdentityView,
)
    requires
        phase is WaitingForParticipants || phase is RoundRunning,
        seen.participant_dropped is Some,
        dropped_participant(seen.participant_dropped->0) == Ok::<
            ParticipantIdentityView,
            PatternCaptureError,
        >(participant),
        seen == (LineObservationView {
            participant_dropped: seen.participant_dropped,
            ..LineObservationView::nothing()
        }),
    ensures
        transition_of(phase, seen).next == phase,
        transition_of(phase, seen).events == seq![
            CeremonyEventView::ParticipantDropped(participant),
        ],
        transition_of(phase, seen).failure is None,
{
}

/// In a running round, a line in which nothing is found but that no
/// contributors remain asks for the shutdown and finishes the round; the
/// line after it, whatever it says, opens the next round.
pub proof fn lemma_no_contributors_finishes_the_round(
    round: u64,
    seen: LineObservationView,
    next_line: Seq<char>,
)
    requires
        round < u64::MAX,
        seen == (LineObservationView {
            round_restarted_no_contributors: true,
            ..LineObservationView::nothing()
        }),
    ensures
        transition_of(CoordinatorPhase::RoundRunning(round), seen).next
            == CoordinatorPhase::RoundFinished(round),
        transition_of(CoordinatorPhase::RoundRunning(round), seen).events == seq![
            CeremonyEventView::ShutdownRequested(ShutdownReason::TestFinished),
        ],
        transition_of(CoordinatorPhase::RoundRunning(round), seen).failure is None,
        line_transition(
            transition_of(CoordinatorPhase::RoundRunning(round), seen).next,
            next_line,
        ).events == seq![CeremonyEventView::RoundWaitingForParticipants((round + 1) as u64)],
{
    lemma_finished_round_advances(round, next_line);
}

/// While a round waits for participants or runs, a dropped participant
/// whose address is well formed and whose role token names no role halts
/// the line: the failure is an unknown role, no event is emitted, and the
/// phase is as it was.
pub proof fn lemma_unknown_role_halts(phase: CoordinatorPhase, seen: LineObservationView)
    requires
        phase is WaitingForParticipants || phase is RoundRunning,
        seen.participant_dropped is Some,
        address_of(seen.participant_dropped->0.address) is Some,
        role_of(seen.participant_dropped->0.participant_type) is None,
    ensures
        transition_of(phase, seen).failure == Some(PatternCaptureError::UnknownRoleError),
        transition_of(phase, seen).events == Seq::<CeremonyEventView>::empty(),
        transition_of(phase, seen).next == phase,
{
}

impl TransitionView {
    /// Whether the transition keeps the rounds in order from a phase of
    /// round `floor` on: the phase has not gone back, and the rounds that the
    /// events name ascend from `floor` to the round of the phase reached.
    pub open spec fn in_order(self, floor: nat) -> bool {
        &&& floor <= self.next.round()
        &&& rounds_ascend(self.events)
        &&& rounds_within(self.events, floor, self.next.round())
    }
}

/// Within one line the rounds never go back: the phase reached has the
/// round of the phase left or the one after it, and the events name rounds
/// between the two, in ascending order.
pub proof fn lemma_transition_in_order(phase: CoordinatorPhase, seen: LineObservationView)
    requires
        phase.has_successor(),
    ensures
        transition_of(phase, seen).in_order(phase.round()),
        transition_of(phase, seen).next.round() <= phase.round() + 1,
{
}

} // verus!
