//! Small operations on text that the rest of the library shares.

use vstd::prelude::*;
use vstd::string::StringExecFns;

verus! {

/// Whether two texts hold the same characters.
pub fn same_text(left: &str, right: &str) -> (same: bool)
    ensures
        same == (left@ == right@),
{
    let len = left.unicode_len();
    if len != right.unicode_len() {
        return false;
    }
    let mut i: usize = 0;
    while i < len
        invariant
            i <= len,
            len == left@.len(),
            len == right@.len(),
            forall|j: int| 0 <= j < i ==> left@[j] == right@[j],
        decreases len - i,
    {
        if left.get_char(i) != right.get_char(i) {
            return false;
        }
        i = i + 1;
    }
    assert(left@ =~= right@);
    true
}

/// A path with one more component, as paths are joined on Unix for a
/// component that is relative: a separator goes between the two unless the
/// path is empty or ends with one.
pub open spec fn joined(path: Seq<char>, component: Seq<char>) -> Seq<char> {
    if path.len() == 0 || path.last() == '/' {
        path + component
    } else {
        path + seq!['/'] + component
    }
}

/// Adds a relative component to a path.
pub fn join(path: &str, component: &str) -> (whole: String)
    ensures
        whole@ == joined(path@, component@),
{
    let mut whole = path.to_owned();
    let len = path.unicode_len();
    if len > 0 && path.get_char(len - 1) != '/' {
        proof {
            reveal_strlit("/");
        }
        whole.append("/");
    }
    whole.append(component);
    whole
}

} // verus!
