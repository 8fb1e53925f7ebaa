//! Comparison of strings by their characters.
use vstd::prelude::*;

verus! {

/// Whether two strings hold the same characters.
pub(crate) fn same_text(left: &str, right: &str) -> (same: bool)
    ensures
        same == (left@ == right@),
{
    left.to_owned() == right.to_owned()
}

} // verus!
