use vstd::prelude::*;

verus! {

/// Change detection rule: a fetched publish instant counts as a change
/// unless a checkpoint is stored and is exactly equal to it. In
/// particular an *older* fetched instant still counts as a change.
pub open spec fn spec_is_changed(stored: Option<i64>, fetched: i64) -> bool {
    !(stored matches Some(t) && t == fetched)
}

/// Decides whether a fetched publish instant differs from the stored
/// checkpoint, by exact equality only (never by ordering).
pub fn is_changed(stored: Option<i64>, fetched: i64) -> (r: bool)
    ensures
        r == spec_is_changed(stored, fetched),
{
    match stored {
        Some(t) => t != fetched,
        None => true,
    }
}

} // verus!
