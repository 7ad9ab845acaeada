//! What this crate takes from the `regex` crate, and on trust.
//!
//! Nothing here is proved. The two functions call the `regex` crate, and
//! their contracts give what they return a name: the verifier knows that a
//! search of the same line for the same pattern finds the same, and no more.

use vstd::prelude::*;

verus! {

/// The error with which the `regex` crate refuses a pattern.
#[verifier::external_type_specification]
#[verifier::external_body]
pub struct ExRegexError(regex::Error);

/// Whether `regex::Regex::new` accepts `pattern`.
pub uninterp spec fn regex_compiles(pattern: Seq<char>) -> bool;

/// What `regex::Regex::captures` finds in `haystack` for the regex that
/// `regex::Regex::new` builds from `pattern`: nothing where the pattern
/// matches nowhere, else, for each of `names` in turn, the text that
/// `regex::Captures::name` reports for the group of that name, or nothing
/// where the group took no part in the match.
pub uninterp spec fn regex_captures(
    pattern: Seq<char>,
    haystack: Seq<char>,
    names: Seq<Seq<char>>,
) -> Option<Seq<Option<Seq<char>>>>;

/// Calls `regex::Regex::new` and drops the compiled regex. An error comes
/// back exactly for the patterns that the crate refuses.
#[verifier::external_body]
pub(crate) fn regex_check(pattern: &str) -> (checked: Result<(), regex::Error>)
    ensures
        checked is Ok <==> regex_compiles(pattern@),
{
    regex::Regex::new(pattern).map(|_| ())
}

/// Calls `regex::Regex::new` on `pattern`, then `regex::Regex::captures` on
/// `haystack`, and copies out the text of the groups called `names`. The
/// pattern's error comes back where the crate refuses the pattern; else the
/// result is what the crate finds, with one entry for each name.
#[verifier::external_body]
pub(crate) fn regex_search(pattern: &str, haystack: &str, names: &Vec<&str>) -> (found: Result<
    Option<Vec<Option<String>>>,
    regex::Error,
>)
    ensures
        found is Ok <==> regex_compiles(pattern@),
        found matches Ok(groups) ==> groups.deep_view() == regex_captures(
            pattern@,
            haystack@,
            names.deep_view(),
        ),
        found matches Ok(Some(groups)) ==> groups@.len() == names@.len(),
{
    let compiled = regex::Regex::new(pattern)?;
    Ok(
        compiled.captures(haystack).map(
            |captures|
                names.iter().map(
                    |name| captures.name(name).map(|group| group.as_str().to_string()),
                ).collect(),
        ),
    )
}

} // verus!
