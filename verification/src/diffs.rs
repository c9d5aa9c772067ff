//! Positional diffs over ordered collections, and their reference model.
//!
//! The backend describes every change to one of its live ordered collections
//! as a batch of positional diffs. Both the room directory reconciler and the
//! per-room timeline engine replay such batches against a locally owned
//! mirror; this module defines the diff type, the mathematical reference
//! model of applying a diff to a sequence, and the verified mirror update.

use vstd::prelude::*;

verus! {

/// One positional change operation over an ordered collection, as delivered
/// by the backend's live-collection diff stream.
///
/// An out-of-bounds index for `Insert`, `Set`, `Remove` is a logic error on
/// the backend's side: the offending diff is skipped (the mirror is left
/// unchanged) and processing continues with the next diff.
#[derive(Clone, Debug)]
pub enum ListDiff<T> {
    /// Add the given values at the end of the collection.
    Append { values: Vec<T> },
    /// Remove every value.
    Clear,
    /// Add one value at the front.
    PushFront { value: T },
    /// Add one value at the end.
    PushBack { value: T },
    /// Remove the first value, if any.
    PopFront,
    /// Remove the last value, if any.
    PopBack,
    /// Add one value so that it ends up at the given index.
    Insert { index: usize, value: T },
    /// Replace the value at the given index.
    SetAt { index: usize, value: T },
    /// Remove the value at the given index.
    Remove { index: usize },
    /// Drop every value at index `length` or beyond.
    Truncate { length: usize },
    /// Replace the whole collection by the given values.
    Reset { values: Vec<T> },
}

/// Reference model: the sequence that results from applying one diff.
pub open spec fn apply_diff<T>(s: Seq<T>, d: ListDiff<T>) -> Seq<T> {
    match d {
        ListDiff::Append { values } => s + values@,
        ListDiff::Clear => Seq::empty(),
        ListDiff::PushFront { value } => s.insert(0, value),
        ListDiff::PushBack { value } => s.push(value),
        ListDiff::PopFront => if s.len() == 0 { s } else { s.drop_first() },
        ListDiff::PopBack => if s.len() == 0 { s } else { s.drop_last() },
        ListDiff::Insert { index, value } => if index <= s.len() {
            s.insert(index as int, value)
        } else {
            s
        },
        ListDiff::SetAt { index, value } => if index < s.len() {
            s.update(index as int, value)
        } else {
            s
        },
        ListDiff::Remove { index } => if index < s.len() {
            s.remove(index as int)
        } else {
            s
        },
        ListDiff::Truncate { length } => if length <= s.len() {
            s.take(length as int)
        } else {
            s
        },
        ListDiff::Reset { values } => values@,
    }
}

/// Reference model: the sequence that results from applying a whole batch of
/// diffs, one at a time, in arrival order.
pub open spec fn apply_diffs<T>(s: Seq<T>, ds: Seq<ListDiff<T>>) -> Seq<T>
    decreases ds.len(),
{
    if ds.len() == 0 {
        s
    } else {
        apply_diffs(apply_diff(s, ds[0]), ds.drop_first())
    }
}

/// Applying the concatenation of two diff batches is the same as applying the
/// first batch and then the second: replaying batches one by one against the
/// mirror agrees with the reference model over the whole diff sequence.
pub proof fn lemma_apply_diffs_concat<T>(s: Seq<T>, ds1: Seq<ListDiff<T>>, ds2: Seq<ListDiff<T>>)
    ensures
        apply_diffs(s, ds1 + ds2) == apply_diffs(apply_diffs(s, ds1), ds2),
    decreases ds1.len(),
{
    if ds1.len() == 0 {
        assert(ds1 + ds2 =~= ds2);
    } else {
        assert((ds1 + ds2).drop_first() =~= ds1.drop_first() + ds2);
        lemma_apply_diffs_concat(apply_diff(s, ds1[0]), ds1.drop_first(), ds2);
    }
}

/// Extending a batch by one diff applies that diff last.
pub proof fn lemma_apply_diffs_push<T>(s: Seq<T>, ds: Seq<ListDiff<T>>, d: ListDiff<T>)
    ensures
        apply_diffs(s, ds.push(d)) == apply_diff(apply_diffs(s, ds), d),
    decreases ds.len(),
{
    if ds.len() == 0 {
        assert(ds.push(d)[0] == d);
        assert(ds.push(d).drop_first() =~= Seq::<ListDiff<T>>::empty());
        assert(apply_diffs(apply_diff(s, d), Seq::<ListDiff<T>>::empty()) == apply_diff(s, d));
    } else {
        assert(ds.push(d)[0] == ds[0]);
        assert(ds.push(d).drop_first() =~= ds.drop_first().push(d));
        lemma_apply_diffs_push(apply_diff(s, ds[0]), ds.drop_first(), d);
    }
}

/// Replays one diff against a mirror, skipping diffs whose index is out of
/// bounds, so that the mirror always equals the reference model.
pub fn apply_to_mirror<T>(mirror: &mut Vec<T>, diff: ListDiff<T>)
    ensures
        final(mirror)@ == apply_diff(old(mirror)@, diff),
{
    match diff {
        ListDiff::Append { mut values } => {
            mirror.append(&mut values);
        }
        ListDiff::Clear => {
            mirror.clear();
        }
        ListDiff::PushFront { value } => {
            mirror.insert(0, value);
        }
        ListDiff::PushBack { value } => {
            mirror.push(value);
        }
        ListDiff::PopFront => {
            if mirror.len() > 0 {
                mirror.remove(0);
            }
        }
        ListDiff::PopBack => {
            if mirror.len() > 0 {
                mirror.pop();
            }
        }
        ListDiff::Insert { index, value } => {
            if index <= mirror.len() {
                mirror.insert(index, value);
            }
        }
        ListDiff::SetAt { index, value } => {
            if index < mirror.len() {
                mirror.remove(index);
                mirror.insert(index, value);
                assert(mirror@ =~= old(mirror)@.update(index as int, value));
            }
        }
        ListDiff::Remove { index } => {
            if index < mirror.len() {
                mirror.remove(index);
            }
        }
        ListDiff::Truncate { length } => {
            mirror.truncate(length);
            assert(mirror@ =~= apply_diff(old(mirror)@, ListDiff::Truncate { length }));
        }
        ListDiff::Reset { values } => {
            *mirror = values;
        }
    }
}

} // verus!
