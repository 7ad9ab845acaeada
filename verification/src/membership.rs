//! The check of a round's membership against the contributors expected in
//! it.

use crate::text::same_text;
use vstd::prelude::*;

verus! {

/// Who took part in a round, as the coordinator keeps it with the round's
/// state.
#[derive(Clone, Debug, PartialEq, Eq)]
pub struct RoundMembershipSnapshot {
    /// The ids of the contributors in the round, in order.
    pub contributor_ids: Vec<String>,
    /// The ids of the verifiers in the round, in order.
    pub verifier_ids: Vec<String>,
}

/// A contributor that was expected in a round and is not in it.
#[derive(Clone, Debug, PartialEq, Eq)]
pub struct MissingParticipantError {
    /// The id of the contributor.
    pub participant: String,
}

/// Whether `place` is the first place of `expected` whose id is not among
/// `present`.
pub open spec fn is_first_absent(
    present: Seq<Seq<char>>,
    expected: Seq<Seq<char>>,
    place: int,
) -> bool {
    &&& 0 <= place < expected.len()
    &&& !present.contains(expected[place])
    &&& forall|j: int| 0 <= j < place ==> present.contains(#[trigger] expected[j])
}

/// Whether every id of `expected` is among `present`.
pub open spec fn all_present(present: Seq<Seq<char>>, expected: Seq<Seq<char>>) -> bool {
    forall|j: int| 0 <= j < expected.len() ==> present.contains(#[trigger] expected[j])
}

/// Whether `id` is one of `ids`.
pub fn contains_id(ids: &Vec<String>, id: &str) -> (found: bool)
    ensures
        found == ids.deep_view().contains(id@),
{
    let mut i: usize = 0;
    while i < ids.len()
        invariant
            i <= ids@.len(),
            forall|j: int| 0 <= j < i ==> ids.deep_view()[j] != id@,
        decreases ids@.len() - i,
    {
        if same_text(ids[i].as_str(), id) {
            assert(ids.deep_view()[i as int] == id@);
            return true;
        }
        i = i + 1;
    }
    false
}

/// Checks that the contributors expected in a round are in its membership
/// snapshot. The check passes exactly when every expected contributor is
/// among the snapshot's contributors; else the error names the first, in
/// the order given, that is not. The verifiers are not looked at.
pub fn check_participants_in_round(
    state: &RoundMembershipSnapshot,
    contributors: &Vec<String>,
    verifiers: &Vec<String>,
) -> (checked: Result<(), MissingParticipantError>)
    ensures
        checked is Ok <==> all_present(state.contributor_ids.deep_view(), contributors.deep_view()),
        checked matches Err(missing) ==> exists|place: int|
            is_first_absent(
                state.contributor_ids.deep_view(),
                contributors.deep_view(),
                place,
            ) && missing.participant@ == #[trigger] contributors.deep_view()[place],
{
    let ghost present = state.contributor_ids.deep_view();
    let ghost expected = contributors.deep_view();
    let mut i: usize = 0;
    while i < contributors.len()
        invariant
            i <= contributors@.len(),
            present == state.contributor_ids.deep_view(),
            expected == contributors.deep_view(),
            forall|j: int| 0 <= j < i ==> present.contains(#[trigger] expected[j]),
        decreases contributors@.len() - i,
    {
        if !contains_id(&state.contributor_ids, contributors[i].as_str()) {
            assert(expected[i as int] == contributors@[i as int]@);
            return Err(MissingParticipantError { participant: contributors[i].clone() });
        }
        i = i + 1;
    }
    Ok(())
}

} // verus!
