use vstd::prelude::*;

verus! {

/// Whether a whole-second Unix timestamp names an instant that a UTC
/// date-time can hold.
pub uninterp spec fn utc_accepts(secs: i64) -> bool;

/// Relies on chrono's `DateTime::from_timestamp`, which returns `None` for an
/// out-of-range number of seconds and depends on its arguments alone.
#[verifier::external_body]
pub(crate) fn timestamp_in_range(secs: i64) -> (r: bool)
    ensures
        r == utc_accepts(secs),
{
    chrono::DateTime::from_timestamp(secs, 0).is_some()
}

} // verus!
