//! The fixed table of line patterns and the search of a line for one of them.
//!
//! Each category of lifecycle phrase has one pattern, written in the syntax
//! of the `regex` crate, which does the matching. What a pattern finds in a
//! line is known to the verifier only by name: `regex_compiles` and
//! `regex_captures`, of the module `matcher`, stand for what the crate
//! computes.
//!
//! The verifier can follow the text of a pattern, not a compiled regex. So
//! the table holds texts, checks once that each compiles, and has each
//! search compile its pattern anew. The patterns are short, and a search is
//! made for a few of them per line of log output.

use crate::matcher::{regex_captures, regex_check, regex_compiles, regex_search};
use vstd::prelude::*;

verus! {

/// The categories of lifecycle phrase, in the order of the table.
#[derive(Clone, Copy, Debug, PartialEq, Eq, Structural)]
pub enum PatternCategory {
    BootCompletion,
    RoundStarted,
    RoundStartedAggregation,
    RoundAggregated,
    RoundFinished,
    ParticipantDropped,
    SuccessfulContribution,
    RoundRestartedNoContributors,
}

/// The coordinator has booted.
pub const BOOT_COMPLETION: &'static str = ".*Coordinator has booted up.*";

/// A round has started; the group `round` is its number.
pub const ROUND_STARTED: &'static str = ".*Advanced ceremony to round (?P<round>[0-9]+).*";

/// The aggregation of a round has started; the group `round` is its
/// number.
pub const ROUND_STARTED_AGGREGATION: &'static str = ".*Starting aggregation on round (?P<round>[0-9]+)";

/// A round is aggregated; the group `round` is its number.
pub const ROUND_AGGREGATED: &'static str = ".*Round (?P<round>[0-9]+) is aggregated.*";

/// A round is finished; the group `round` is its number.
pub const ROUND_FINISHED: &'static str = ".*Round (?P<round>[0-9]+) is finished.*";

/// A participant was dropped; the groups `address` and `participant_type`
/// say who.
pub const PARTICIPANT_DROPPED: &'static str = ".*Dropping (?P<address>aleo[a-z0-9]+)[.](?P<participant_type>contributor|verifier) from the ceremony";

/// A contributor added a contribution; the groups `address` and `chunk`
/// say who and to which chunk.
pub const SUCCESSFUL_CONTRIBUTION: &'static str = ".*((?P<address>aleo[a-z0-9]+)[.]contributor) added a contribution to chunk (?P<chunk>[0-9]+)";

/// The round was left without contributors.
pub const ROUND_RESTARTED_NO_CONTRIBUTORS: &'static str = ".*No contributors remaining to reset and complete the current round. Rolling back to round 0 to wait and accept new participants.*";

/// How many categories the table has.
pub const CATEGORY_COUNT: usize = 8;

impl PatternCategory {
    /// The pattern of this category.
    pub open spec fn text(self) -> Seq<char> {
        match self {
            PatternCategory::BootCompletion => BOOT_COMPLETION@,
            PatternCategory::RoundStarted => ROUND_STARTED@,
            PatternCategory::RoundStartedAggregation => ROUND_STARTED_AGGREGATION@,
            PatternCategory::RoundAggregated => ROUND_AGGREGATED@,
            PatternCategory::RoundFinished => ROUND_FINISHED@,
            PatternCategory::ParticipantDropped => PARTICIPANT_DROPPED@,
            PatternCategory::SuccessfulContribution => SUCCESSFUL_CONTRIBUTION@,
            PatternCategory::RoundRestartedNoContributors => ROUND_RESTARTED_NO_CONTRIBUTORS@,
        }
    }

    /// The named groups that this category extracts, in the order in which
    /// a search reports them.
    pub open spec fn group_names(self) -> Seq<Seq<char>> {
        match self {
            PatternCategory::BootCompletion => seq![],
            PatternCategory::RoundStarted => seq!["round"@],
            PatternCategory::RoundStartedAggregation => seq!["round"@],
            PatternCategory::RoundAggregated => seq!["round"@],
            PatternCategory::RoundFinished => seq!["round"@],
            PatternCategory::ParticipantDropped => seq!["address"@, "participant_type"@],
            PatternCategory::SuccessfulContribution => seq!["address"@, "chunk"@],
            PatternCategory::RoundRestartedNoContributors => seq![],
        }
    }

    /// The place of this category in the table.
    pub open spec fn position(self) -> nat {
        match self {
            PatternCategory::BootCompletion => 0,
            PatternCategory::RoundStarted => 1,
            PatternCategory::RoundStartedAggregation => 2,
            PatternCategory::RoundAggregated => 3,
            PatternCategory::RoundFinished => 4,
            PatternCategory::ParticipantDropped => 5,
            PatternCategory::SuccessfulContribution => 6,
            PatternCategory::RoundRestartedNoContributors => 7,
        }
    }

    /// The category at a place of the table.
    pub open spec fn at(position: nat) -> PatternCategory {
        if position == 0 {
            PatternCategory::BootCompletion
        } else if position == 1 {
            PatternCategory::RoundStarted
        } else if position == 2 {
            PatternCategory::RoundStartedAggregation
        } else if position == 3 {
            PatternCategory::RoundAggregated
        } else if position == 4 {
            PatternCategory::RoundFinished
        } else if position == 5 {
            PatternCategory::ParticipantDropped
        } else if position == 6 {
            PatternCategory::SuccessfulContribution
        } else {
            PatternCategory::RoundRestartedNoContributors
        }
    }

    /// Every category, in table order.
    pub fn all() -> (categories: Vec<PatternCategory>)
        ensures
            categories@.len() == CATEGORY_COUNT,
            forall|i: int|
                0 <= i < CATEGORY_COUNT ==> categories@[i] == PatternCategory::at(i as nat),
    {
        vec![
            PatternCategory::BootCompletion,
            PatternCategory::RoundStarted,
            PatternCategory::RoundStartedAggregation,
            PatternCategory::RoundAggregated,
            PatternCategory::RoundFinished,
            PatternCategory::ParticipantDropped,
            PatternCategory::SuccessfulContribution,
            PatternCategory::RoundRestartedNoContributors,
        ]
    }

    /// The place of this category in the table.
    pub fn index(self) -> (position: usize)
        ensures
            position == self.position(),
            position < CATEGORY_COUNT,
            PatternCategory::at(position as nat) == self,
    {
        match self {
            PatternCategory::BootCompletion => 0,
            PatternCategory::RoundStarted => 1,
            PatternCategory::RoundStartedAggregation => 2,
            PatternCategory::RoundAggregated => 3,
            PatternCategory::RoundFinished => 4,
            PatternCategory::ParticipantDropped => 5,
            PatternCategory::SuccessfulContribution => 6,
            PatternCategory::RoundRestartedNoContributors => 7,
        }
    }

    /// The pattern of this category.
    pub fn pattern(self) -> (text: &'static str)
        ensures
            text@ == self.text(),
    {
        match self {
            PatternCategory::BootCompletion => BOOT_COMPLETION,
            PatternCategory::RoundStarted => ROUND_STARTED,
            PatternCategory::RoundStartedAggregation => ROUND_STARTED_AGGREGATION,
            PatternCategory::RoundAggregated => ROUND_AGGREGATED,
            PatternCategory::RoundFinished => ROUND_FINISHED,
            PatternCategory::ParticipantDropped => PARTICIPANT_DROPPED,
            PatternCategory::SuccessfulContribution => SUCCESSFUL_CONTRIBUTION,
            PatternCategory::RoundRestartedNoContributors => ROUND_RESTARTED_NO_CONTRIBUTORS,
        }
    }

    /// The names of the groups that this category extracts.
    pub fn groups(self) -> (names: Vec<&'static str>)
        ensures
            names.deep_view() == self.group_names(),
    {
        match self {
            PatternCategory::BootCompletion => vec![],
            PatternCategory::RoundStarted => vec!["round"],
            PatternCategory::RoundStartedAggregation => vec!["round"],
            PatternCategory::RoundAggregated => vec!["round"],
            PatternCategory::RoundFinished => vec!["round"],
            PatternCategory::ParticipantDropped => vec!["address", "participant_type"],
            PatternCategory::SuccessfulContribution => vec!["address", "chunk"],
            PatternCategory::RoundRestartedNoContributors => vec![],
        }
    }
}

/// A pattern of the table that the `regex` crate refuses.
#[derive(Clone, Copy, Debug, PartialEq, Eq, Structural)]
pub struct PatternError {
    /// The first category, in table order, whose pattern is refused.
    pub category: PatternCategory,
}

/// Whether the `regex` crate accepts every pattern of the table.
pub open spec fn all_patterns_compile() -> bool {
    forall|category: PatternCategory| regex_compiles(#[trigger] category.text())
}

/// What a search of `line` for `category` finds: nothing where the pattern
/// matches nowhere, else the text of each of the category's groups.
pub open spec fn found_in(category: PatternCategory, line: Seq<char>) -> Option<
    Seq<Option<Seq<char>>>,
> {
    regex_captures(category.text(), line, category.group_names())
}

/// Whether `line` matches the pattern of `category`.
pub open spec fn matches_in(category: PatternCategory, line: Seq<char>) -> bool {
    found_in(category, line) is Some
}

/// The group at a place of a search result, or nothing past its end.
pub open spec fn group_at(groups: Seq<Option<Seq<char>>>, place: int) -> Option<Seq<char>> {
    if 0 <= place < groups.len() {
        groups[place]
    } else {
        None
    }
}

/// The round that a line names where it matches a round pattern.
#[derive(Clone, Debug, PartialEq, Eq)]
pub struct RoundCapture {
    /// The text of the group `round`.
    pub round: Option<String>,
}

/// The model of a round capture, over which contracts are stated.
pub struct RoundCaptureView {
    pub round: Option<Seq<char>>,
}

impl View for RoundCapture {
    type V = RoundCaptureView;

    open spec fn view(&self) -> RoundCaptureView {
        RoundCaptureView { round: self.round.deep_view() }
    }
}

/// What a line says of a dropped participant.
#[derive(Clone, Debug, PartialEq, Eq)]
pub struct DroppedCapture {
    /// The text of the group `address`.
    pub address: Option<String>,
    /// The text of the group `participant_type`.
    pub participant_type: Option<String>,
}

/// The model of a dropped-participant capture, over which contracts are stated.
pub struct DroppedCaptureView {
    pub address: Option<Seq<char>>,
    pub participant_type: Option<Seq<char>>,
}

impl View for DroppedCapture {
    type V = DroppedCaptureView;

    open spec fn view(&self) -> DroppedCaptureView {
        DroppedCaptureView {
            address: self.address.deep_view(),
            participant_type: self.participant_type.deep_view(),
        }
    }
}

/// What a line says of a successful contribution.
#[derive(Clone, Debug, PartialEq, Eq)]
pub struct ContributionCapture {
    /// The text of the group `address`.
    pub address: Option<String>,
    /// The text of the group `chunk`.
    pub chunk: Option<String>,
}

/// The model of a contribution capture, over which contracts are stated.
pub struct ContributionCaptureView {
    pub address: Option<Seq<char>>,
    pub chunk: Option<Seq<char>>,
}

impl View for ContributionCapture {
    type V = ContributionCaptureView;

    open spec fn view(&self) -> ContributionCaptureView {
        ContributionCaptureView {
            address: self.address.deep_view(),
            chunk: self.chunk.deep_view(),
        }
    }
}

/// The round capture of `line` for one of the round patterns.
pub open spec fn round_in(category: PatternCategory, line: Seq<char>) -> Option<RoundCaptureView> {
    match found_in(category, line) {
        Some(groups) => Some(RoundCaptureView { round: group_at(groups, 0) }),
        None => None,
    }
}

/// The dropped-participant capture of `line`.
pub open spec fn dropped_in(line: Seq<char>) -> Option<DroppedCaptureView> {
    match found_in(PatternCategory::ParticipantDropped, line) {
        Some(groups) => Some(
            DroppedCaptureView {
                address: group_at(groups, 0),
                participant_type: group_at(groups, 1),
            },
        ),
        None => None,
    }
}

/// The contribution capture of `line`.
pub open spec fn contribution_in(line: Seq<char>) -> Option<ContributionCaptureView> {
    match found_in(PatternCategory::SuccessfulContribution, line) {
        Some(groups) => Some(
            ContributionCaptureView { address: group_at(groups, 0), chunk: group_at(groups, 1) },
        ),
        None => None,
    }
}

/// The view of an optional capture.
pub open spec fn capture_view<T: View>(capture: Option<T>) -> Option<T::V> {
    match capture {
        Some(inner) => Some(inner@),
        None => None,
    }
}

/// The pattern table, each of its patterns accepted by the `regex` crate.
pub struct LinePatterns {
    texts: Vec<&'static str>,
}

/// Whether the `regex` crate accepts `text` as a pattern.
pub fn pattern_compiles(text: &str) -> (accepted: bool)
    ensures
        accepted == regex_compiles(text@),
{
    match regex_check(text) {
        Ok(_) => true,
        Err(_) => false,
    }
}

impl LinePatterns {
    #[verifier::type_invariant]
    spec fn checked(self) -> bool {
        &&& self.texts@.len() == CATEGORY_COUNT
        &&& forall|i: int|
            0 <= i < CATEGORY_COUNT ==> {
                &&& (#[trigger] self.texts@[i])@ == PatternCategory::at(i as nat).text()
                &&& regex_compiles(self.texts@[i]@)
            }
    }

    /// Builds the table and has the `regex` crate check each pattern, in
    /// table order. The table comes back exactly when every pattern is
    /// accepted; else the error names the first that is refused.
    pub fn new() -> (table: Result<LinePatterns, PatternError>)
        ensures
            table is Ok <==> all_patterns_compile(),
            table matches Err(error) ==> {
                &&& !regex_compiles(error.category.text())
                &&& forall|i: int|
                    0 <= i < error.category.position() ==> regex_compiles(
                        #[trigger] PatternCategory::at(i as nat).text(),
                    )
            },
    {
        let categories = PatternCategory::all();
        let mut texts: Vec<&'static str> = Vec::new();
        let mut i: usize = 0;
        while i < CATEGORY_COUNT
            invariant
                i <= CATEGORY_COUNT,
                categories@.len() == CATEGORY_COUNT,
                forall|j: int|
                    0 <= j < CATEGORY_COUNT ==> categories@[j] == PatternCategory::at(j as nat),
                texts@.len() == i,
                forall|j: int|
                    0 <= j < i ==> {
                        &&& (#[trigger] texts@[j])@ == PatternCategory::at(j as nat).text()
                        &&& regex_compiles(texts@[j]@)
                    },
            decreases CATEGORY_COUNT - i,
        {
            let category = categories[i];
            let text = category.pattern();
            if !pattern_compiles(text) {
                proof {
                    assert forall|j: int| 0 <= j < category.position() implies regex_compiles(
                        #[trigger] PatternCategory::at(j as nat).text(),
                    ) by {
                        assert(texts@[j]@ == PatternCategory::at(j as nat).text());
                    }
                }
                return Err(PatternError { category });
            }
            texts.push(text);
            i = i + 1;
        }
        proof {
            assert forall|category: PatternCategory| regex_compiles(
                #[trigger] category.text(),
            ) by {
                let place = category.position() as int;
                assert(texts@[place]@ == category.text());
            }
        }
        Ok(LinePatterns { texts })
    }

    /// The pattern of a category, as the table holds it.
    pub fn pattern(&self, category: PatternCategory) -> (text: &'static str)
        ensures
            text@ == category.text(),
            regex_compiles(text@),
    {
        proof {
            use_type_invariant(self);
        }
        let place = category.index();
        self.texts[place]
    }

    /// Searches `line` for the pattern of `category` and gives the text of
    /// the category's groups, in the order of their names.
    pub fn search(&self, category: PatternCategory, line: &str) -> (found: Option<
        Vec<Option<String>>,
    >)
        ensures
            found.deep_view() == found_in(category, line@),
            found matches Some(groups) ==> groups@.len() == category.group_names().len(),
    {
        let text = self.pattern(category);
        let names = category.groups();
        match regex_search(text, line, &names) {
            Ok(found) => found,
            Err(_) => {
                // Not reached: the table holds only patterns that compile.
                assert(false);
                None
            },
        }
    }

    /// Whether `line` matches the pattern of `category`.
    pub fn is_match(&self, category: PatternCategory, line: &str) -> (matched: bool)
        ensures
            matched == matches_in(category, line@),
    {
        self.search(category, line).is_some()
    }

    /// Searches `line` for one of the four round patterns.
    pub fn capture_round(&self, category: PatternCategory, line: &str) -> (capture: Option<
        RoundCapture,
    >)
        ensures
            capture_view(capture) == round_in(category, line@),
    {
        match self.search(category, line) {
            Some(mut groups) => {
                let round = take_group(&mut groups, 0);
                Some(RoundCapture { round })
            },
            None => None,
        }
    }

    /// Searches `line` for the pattern of a dropped participant.
    pub fn capture_dropped(&self, line: &str) -> (capture: Option<DroppedCapture>)
        ensures
            capture_view(capture) == dropped_in(line@),
    {
        match self.search(PatternCategory::ParticipantDropped, line) {
            Some(mut groups) => {
                let participant_type = take_group(&mut groups, 1);
                let address = take_group(&mut groups, 0);
                Some(DroppedCapture { address, participant_type })
            },
            None => None,
        }
    }

    /// Searches `line` for the pattern of a successful contribution.
    pub fn capture_contribution(&self, line: &str) -> (capture: Option<ContributionCapture>)
        ensures
            capture_view(capture) == contribution_in(line@),
    {
        match self.search(PatternCategory::SuccessfulContribution, line) {
            Some(mut groups) => {
                let chunk = take_group(&mut groups, 1);
                let address = take_group(&mut groups, 0);
                Some(ContributionCapture { address, chunk })
            },
            None => None,
        }
    }
}

/// Takes the group at `place` out of a search result, leaving the groups
/// before it; nothing where the result has no such place.
fn take_group(groups: &mut Vec<Option<String>>, place: usize) -> (group: Option<String>)
    ensures
        group.deep_view() == group_at(old(groups).deep_view(), place as int),
        final(groups).deep_view() == old(groups).deep_view().take(
            if place < old(groups)@.len() {
                place as int
            } else {
                old(groups)@.len() as int
            },
        ),
{
    if place >= groups.len() {
        return None;
    }
    groups.truncate(place + 1);
    let group = groups.pop();
    match group {
        Some(inner) => inner,
        None => None,
    }
}

} // verus!
