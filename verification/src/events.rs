//! What the round state machine tells the rest of the ceremony.

use crate::identity::{ParticipantIdentity, ParticipantIdentityView};
use vstd::prelude::*;

verus! {

/// Why the ceremony is asked to shut down.
#[derive(Clone, Copy, Debug, PartialEq, Eq, Structural)]
pub enum ShutdownReason {
    /// The coordinator has nobody left to finish the round with.
    TestFinished,
}

/// One step of the coordinator's round lifecycle, as observed in its output.
#[derive(Debug, PartialEq, Eq)]
pub enum CeremonyEvent {
    /// The round is open and waits for participants.
    RoundWaitingForParticipants(u64),
    /// The round has started.
    RoundStarted(u64),
    /// The coordinator has begun to aggregate the round.
    RoundStartedAggregation(u64),
    /// The round is aggregated.
    RoundAggregated(u64),
    /// The round is finished.
    RoundFinished(u64),
    /// A participant was dropped from the ceremony.
    ParticipantDropped(ParticipantIdentity),
    /// A contributor added a contribution to a chunk.
    SuccessfulContribution { contributor: ParticipantIdentity, chunk: u64 },
    /// The ceremony should shut down.
    ShutdownRequested(ShutdownReason),
}

/// The model of an event, over which contracts are stated.
pub enum CeremonyEventView {
    RoundWaitingForParticipants(u64),
    RoundStarted(u64),
    RoundStartedAggregation(u64),
    RoundAggregated(u64),
    RoundFinished(u64),
    ParticipantDropped(ParticipantIdentityView),
    SuccessfulContribution { contributor: ParticipantIdentityView, chunk: u64 },
    ShutdownRequested(ShutdownReason),
}

impl View for CeremonyEvent {
    type V = CeremonyEventView;

    open spec fn view(&self) -> CeremonyEventView {
        match self {
            CeremonyEvent::RoundWaitingForParticipants(round) => {
                CeremonyEventView::RoundWaitingForParticipants(*round)
            },
            CeremonyEvent::RoundStarted(round) => CeremonyEventView::RoundStarted(*round),
            CeremonyEvent::RoundStartedAggregation(round) => {
                CeremonyEventView::RoundStartedAggregation(*round)
            },
            CeremonyEvent::RoundAggregated(round) => CeremonyEventView::RoundAggregated(*round),
            CeremonyEvent::RoundFinished(round) => CeremonyEventView::RoundFinished(*round),
            CeremonyEvent::ParticipantDropped(participant) => {
                CeremonyEventView::ParticipantDropped(participant@)
            },
            CeremonyEvent::SuccessfulContribution { contributor, chunk } => {
                CeremonyEventView::SuccessfulContribution { contributor: contributor@, chunk: *chunk }
            },
            CeremonyEvent::ShutdownRequested(reason) => {
                CeremonyEventView::ShutdownRequested(*reason)
            },
        }
    }
}

impl Clone for CeremonyEvent {
    fn clone(&self) -> (copy: Self)
        ensures
            copy == *self,
    {
        match self {
            CeremonyEvent::RoundWaitingForParticipants(round) => {
                CeremonyEvent::RoundWaitingForParticipants(*round)
            },
            CeremonyEvent::RoundStarted(round) => CeremonyEvent::RoundStarted(*round),
            CeremonyEvent::RoundStartedAggregation(round) => {
                CeremonyEvent::RoundStartedAggregation(*round)
            },
            CeremonyEvent::RoundAggregated(round) => CeremonyEvent::RoundAggregated(*round),
            CeremonyEvent::RoundFinished(round) => CeremonyEvent::RoundFinished(*round),
            CeremonyEvent::ParticipantDropped(participant) => {
                CeremonyEvent::ParticipantDropped(participant.clone())
            },
            CeremonyEvent::SuccessfulContribution { contributor, chunk } => {
                CeremonyEvent::SuccessfulContribution {
                    contributor: contributor.clone(),
                    chunk: *chunk,
                }
            },
            CeremonyEvent::ShutdownRequested(reason) => CeremonyEvent::ShutdownRequested(*reason),
        }
    }
}

impl CeremonyEventView {
    /// The round that the event names, if it names one.
    pub open spec fn round(self) -> Option<u64> {
        match self {
            CeremonyEventView::RoundWaitingForParticipants(round) => Some(round),
            CeremonyEventView::RoundStarted(round) => Some(round),
            CeremonyEventView::RoundStartedAggregation(round) => Some(round),
            CeremonyEventView::RoundAggregated(round) => Some(round),
            CeremonyEventView::RoundFinished(round) => Some(round),
            CeremonyEventView::ParticipantDropped(_) => None,
            CeremonyEventView::SuccessfulContribution { .. } => None,
            CeremonyEventView::ShutdownRequested(_) => None,
        }
    }
}

impl CeremonyEvent {
    /// The round that the event names, if it names one.
    pub fn round(&self) -> (round: Option<u64>)
        ensures
            round == self@.round(),
    {
        match self {
            CeremonyEvent::RoundWaitingForParticipants(round) => Some(*round),
            CeremonyEvent::RoundStarted(round) => Some(*round),
            CeremonyEvent::RoundStartedAggregation(round) => Some(*round),
            CeremonyEvent::RoundAggregated(round) => Some(*round),
            CeremonyEvent::RoundFinished(round) => Some(*round),
            CeremonyEvent::ParticipantDropped(_) => None,
            CeremonyEvent::SuccessfulContribution { .. } => None,
            CeremonyEvent::ShutdownRequested(_) => None,
        }
    }
}

/// The models of the events of a list, in order.
pub open spec fn event_views(events: Seq<CeremonyEvent>) -> Seq<CeremonyEventView> {
    events.map_values(|event: CeremonyEvent| event@)
}

/// Whether the rounds that the events name never decrease along the list.
pub open spec fn rounds_ascend(events: Seq<CeremonyEventView>) -> bool {
    forall|i: int, j: int|
        0 <= i <= j < events.len() && (#[trigger] events[i]).round() is Some && (
        #[trigger] events[j]).round() is Some ==> events[i].round()->0 <= events[j].round()->0
}

/// Whether every round that the events name lies between `low` and `high`.
pub open spec fn rounds_within(events: Seq<CeremonyEventView>, low: nat, high: nat) -> bool {
    forall|i: int|
        0 <= i < events.len() && (#[trigger] events[i]).round() is Some ==> low
            <= events[i].round()->0 <= high
}

/// Two lists of ascending rounds, the first below a bound and the second
/// above it, make one list of ascending rounds.
pub proof fn lemma_rounds_join(
    first: Seq<CeremonyEventView>,
    second: Seq<CeremonyEventView>,
    low: nat,
    middle: nat,
    high: nat,
)
    requires
        rounds_ascend(first),
        rounds_ascend(second),
        rounds_within(first, low, middle),
        rounds_within(second, middle, high),
        low <= middle <= high,
    ensures
        rounds_ascend(first + second),
        rounds_within(first + second, low, high),
{
}

/// Why a line that matched a pattern could not be turned into an event.
#[derive(Clone, Copy, Debug, PartialEq, Eq, Structural)]
pub enum PatternCaptureError {
    /// The captured address is missing or malformed.
    AddressParseError,
    /// The captured role is missing or names no known role.
    UnknownRoleError,
    /// The captured round or chunk is missing or no number of 64 bits.
    NumberParseError,
}

} // verus!
