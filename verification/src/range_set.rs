//! The drawn-item range sets of a timeline view.
//!
//! A timeline view tracks, per room, which index ranges of the mirror have
//! already been drawn since the last update, once for event contents and
//! once for sender profiles. The set of indices is held in an outside
//! crate's range set; only the calls written here are trusted, and they are
//! stated over the mathematical set of contained indices.

use vstd::prelude::*;

verus! {

#[verifier::external_type_specification]
#[verifier::external_body]
#[verifier::reject_recursive_types(T)]
/// A set of values stored as coalesced ranges, from an outside crate.
pub struct ExRangeSet<T>(rangemap::RangeSet<T>);

/// The indices contained in a drawn-item range set.
pub uninterp spec fn range_set_indices(s: rangemap::RangeSet<usize>) -> Set<int>;

/// Relies on rangemap::RangeSet::new: creates an empty set.
#[verifier::external_body]
pub fn range_set_new() -> (r: rangemap::RangeSet<usize>)
    ensures
        range_set_indices(r) == Set::<int>::empty(),
{
    rangemap::RangeSet::new()
}

/// Relies on rangemap::RangeSet::clear: removes every range.
#[verifier::external_body]
pub fn range_set_clear(s: &mut rangemap::RangeSet<usize>)
    ensures
        range_set_indices(*final(s)) == Set::<int>::empty(),
{
    s.clear()
}

/// Relies on rangemap::RangeSet::insert: inserts the half-open range, which
/// coalesces with what is already there. The call panics on an empty or
/// backwards range, so those are excluded here.
#[verifier::external_body]
pub fn range_set_insert(s: &mut rangemap::RangeSet<usize>, start: usize, end: usize)
    requires
        start < end,
    ensures
        range_set_indices(*final(s)) == range_set_indices(*old(s)).union(
            Set::new(|i: int| start <= i < end),
        ),
{
    s.insert(start..end)
}

/// Relies on rangemap::RangeSet::remove: removes the half-open range,
/// contracting any stored range that overlaps it. The call panics on an
/// empty or backwards range, so those are excluded here.
#[verifier::external_body]
pub fn range_set_remove(s: &mut rangemap::RangeSet<usize>, start: usize, end: usize)
    requires
        start < end,
    ensures
        range_set_indices(*final(s)) == range_set_indices(*old(s)).difference(
            Set::new(|i: int| start <= i < end),
        ),
{
    s.remove(start..end)
}

/// Relies on rangemap::RangeSet::contains.
#[verifier::external_body]
pub fn range_set_contains(s: &rangemap::RangeSet<usize>, value: usize) -> (r: bool)
    ensures
        r == range_set_indices(*s).contains(value as int),
{
    s.contains(&value)
}

} // verus!
