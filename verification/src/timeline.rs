//! The per-room timeline engine.
//!
//! One engine exists per joined room. It consumes that room's diff-batch
//! stream, maintains a shadow mirror of the backend's timeline items,
//! accumulates the changed index range and the cache-invalidation flags over
//! each batch, keeps the backward-search coordinator's tracked index
//! consistent across concurrent edits, and emits at most one consolidated
//! "new items" update per batch, followed (strictly after) by a "target
//! found" update when the sought event has been located.

use vstd::math::{max, min};
use vstd::prelude::*;

use crate::diffs::{apply_diff, apply_diffs, ListDiff};
use crate::power_levels::UserPowerLevels;
use crate::rooms::UnreadMessageCount;

verus! {

/// Which direction to paginate in.
///
/// `Forwards` retrieves later events (towards the end of the timeline);
/// `Backwards` retrieves earlier events (towards the start), which is the
/// usual choice and the one the target-event search issues.
#[derive(Clone, Copy, Debug, PartialEq, Eq, Structural)]
pub enum PaginationDirection {
    /// Towards the end of the timeline.
    Forwards,
    /// Towards the start of the timeline.
    Backwards,
}

impl PaginationDirection {
    /// A readable name for this direction.
    pub fn as_str(&self) -> (r: &'static str)
        ensures
            *self is Forwards ==> r@ == "forwards"@,
            *self is Backwards ==> r@ == "backwards"@,
    {
        match self {
            PaginationDirection::Forwards => "forwards",
            PaginationDirection::Backwards => "backwards",
        }
    }
}

/// One item of a room's timeline, as the mirror records it: an opaque item
/// carrying an optional stable event identifier. Items without an event
/// identifier (virtual separators) are never search targets.
#[derive(Clone, Copy, Debug, PartialEq, Eq)]
pub struct TimelineItem {
    /// The stable identifier of the event this item renders, if it has one.
    pub event_id: Option<u64>,
}

/// A user's read receipt: the timestamp it carries, if any.
#[derive(Clone, Copy, Debug, PartialEq, Eq)]
pub struct ReadReceipt {
    /// The receipt's timestamp, in milliseconds since the epoch.
    pub timestamp: Option<u64>,
}

/// A request to search backwards for a specific event in a room's timeline.
#[derive(Clone, Copy, Debug)]
pub struct BackwardsPaginateUntilEventRequest {
    /// The room whose timeline is searched.
    pub room_id: u64,
    /// The event to look for.
    pub target_event_id: u64,
    /// The index in the timeline at which the backwards search begins: this
    /// item is examined first, then its predecessors.
    pub starting_index: usize,
    /// The number of items in the timeline at the time of the request, used
    /// to detect whether the timeline has changed since the request was
    /// made, in which case `starting_index` can no longer be relied upon.
    pub current_tl_len: usize,
}

/// A message from a room's timeline engine to that room's timeline view.
#[derive(Clone, Debug)]
pub enum TimelineUpdate {
    /// The very first update a given room's timeline receives.
    FirstUpdate {
        /// The initial list of timeline items for the room.
        initial_items: Vec<TimelineItem>,
    },
    /// The content of the room's timeline changed in the background.
    NewItems {
        /// The entire current list of timeline items for the room.
        new_items: Vec<TimelineItem>,
        /// The lowest index changed by this update; items below it need not
        /// be redrawn. `usize::MAX` when no index-range change occurred.
        changed_start: usize,
        /// One past the highest index changed by this update; `usize::MAX`
        /// means "changed to the end".
        changed_end: usize,
        /// Whether the changes only appended items at the end.
        is_append: bool,
        /// Whether the whole cache of drawn items must be cleared. This
        /// supersedes the changed range.
        clear_cache: bool,
    },
    /// The updated number of unread messages in the room.
    NewUnreadMessagesCount(UnreadMessageCount),
    /// The target event was found at the given index in the mirror, so the
    /// view can scroll to it and the search is over.
    TargetEventFound {
        /// The event that was sought.
        target_event_id: u64,
        /// Its index in the timeline items.
        index: usize,
    },
    /// The pagination task is running a request in the given direction.
    PaginationRunning(PaginationDirection),
    /// A pagination request failed.
    PaginationError {
        /// The direction of the failed request.
        direction: PaginationDirection,
        /// A description of the failure, for display.
        message: String,
    },
    /// The pagination task has completed its recent request(s).
    PaginationIdle {
        /// `true` when the start of the timeline has been reached, so no
        /// further backwards pagination request is needed.
        fully_paginated: bool,
        /// The direction of the completed request.
        direction: PaginationDirection,
    },
    /// Details for an event were fetched from the server.
    EventDetailsFetched {
        /// The event whose details were requested.
        event_id: u64,
        /// Whether the request succeeded.
        success: bool,
    },
    /// The result of a request to edit a message in this timeline.
    MessageEdited {
        /// The event that was edited.
        event_id: u64,
        /// Whether the edit succeeded.
        success: bool,
    },
    /// The room's members have been fetched from the server.
    RoomMembersSynced,
    /// The room's full member list, as displayable entries keyed by user id.
    RoomMembersListFetched {
        /// Pairs of user identifier and displayable member info.
        members: Vec<(String, crate::room_screen::FrontendRoomMember)>,
    },
    /// One or more requested media items are now available.
    MediaFetched,
    /// The displayable names of users currently typing in this room.
    TypingUsers {
        /// The typing users' displayable names.
        users: Vec<String>,
    },
    /// The logged-in user's power levels for this room.
    UserPowerLevels(UserPowerLevels),
    /// The logged-in user's own read receipt for this room.
    OwnUserReadReceipt(ReadReceipt),
}

/// The location where a sought event was found during diff processing.
#[derive(Clone, Copy, Debug, PartialEq, Eq)]
pub struct FoundTarget {
    /// The tracked index of the event in the mirror.
    pub index: usize,
    /// The event's identifier.
    pub event_id: u64,
}

/// Whether `item` carries the event identifier the search is looking for.
pub open spec fn is_target_item(target: Option<u64>, item: TimelineItem) -> bool {
    &&& target is Some
    &&& item.event_id == Some(target->Some_0)
}

/// Whether this diff forces the whole drawn-item cache to be cleared: any
/// structural change at the front of the timeline does (push-front,
/// pop-front, insert or remove at index zero, truncate to zero length), and
/// so does any bulk change (clear, reset).
pub open spec fn diff_clears_cache<T>(d: ListDiff<T>) -> bool {
    match d {
        ListDiff::Clear => true,
        ListDiff::PushFront { .. } => true,
        ListDiff::PopFront => true,
        ListDiff::Reset { .. } => true,
        ListDiff::Insert { index, .. } => index == 0,
        ListDiff::Remove { index } => index == 0,
        ListDiff::Truncate { length } => length == 0,
        _ => false,
    }
}

/// Whether this diff, applied to a mirror of length `len`, only grows the
/// tail of the timeline.
pub open spec fn diff_is_append<T>(len: int, d: ListDiff<T>) -> bool {
    match d {
        ListDiff::Append { .. } => true,
        ListDiff::PushBack { .. } => true,
        ListDiff::Insert { index, .. } => index >= len,
        _ => false,
    }
}

/// The tracked-index view of an executable found-target slot.
pub open spec fn found_view(f: Option<FoundTarget>) -> Option<(int, u64)> {
    match f {
        Some(ft) => Some((ft.index as int, ft.event_id)),
        None => None,
    }
}

/// The state that the engine folds over a diff batch: the mirror, the four
/// running accumulators, and the target-search tracking slots.
pub ghost struct BatchModel {
    /// The mirrored timeline items.
    pub items: Seq<TimelineItem>,
    /// The lowest changed index; `usize::MAX` while nothing changed.
    pub first_change: int,
    /// One past the highest changed index; `usize::MAX` means "to end".
    pub last_change: int,
    /// Whether the whole drawn-item cache must be cleared.
    pub clear_cache: bool,
    /// Whether the changes only appended items at the end.
    pub is_append: bool,
    /// The event identifier still being sought, if any.
    pub target: Option<u64>,
    /// The tracked position of the already-found target, if any.
    pub found: Option<(int, u64)>,
}

/// The fold state at the start of a batch.
pub open spec fn engine_batch_init(e: TimelineEngine) -> BatchModel {
    BatchModel {
        items: e.items@,
        first_change: usize::MAX as int,
        last_change: 0,
        clear_cache: false,
        is_append: false,
        target: e.target_event_id,
        found: found_view(e.found_target),
    }
}

/// Increments a tracked index, staying within the executable index range.
pub open spec fn track_inc(i: int) -> int {
    min(i + 1, usize::MAX as int)
}

/// Decrements a tracked index, floored at zero.
pub open spec fn track_dec(i: int) -> int {
    max(i - 1, 0)
}

/// How one diff advances the engine's fold state. The mirror changes exactly
/// as the reference model says; the accumulators follow the diff's kind and
/// position; the search slots are adjusted so a tracked index keeps
/// referring to the same logical position, and a newly prepended or inserted
/// item is checked against the sought event identifier.
pub open spec fn batch_step(m: BatchModel, d: ListDiff<TimelineItem>) -> BatchModel {
    let len = m.items.len() as int;
    let items2 = apply_diff(m.items, d);
    match d {
        ListDiff::Append { values } => BatchModel {
            items: items2,
            first_change: min(m.first_change, len),
            last_change: max(m.last_change, len + values@.len()),
            is_append: true,
            ..m
        },
        ListDiff::Clear => BatchModel { items: items2, clear_cache: true, ..m },
        ListDiff::PushFront { value } => BatchModel {
            items: items2,
            clear_cache: true,
            target: if m.found is Some || !is_target_item(m.target, value) {
                m.target
            } else {
                None
            },
            found: match m.found {
                Some((i, ev)) => Some((track_inc(i), ev)),
                None => if is_target_item(m.target, value) {
                    Some((0, m.target->Some_0))
                } else {
                    None
                },
            },
            ..m
        },
        ListDiff::PushBack { .. } => BatchModel {
            items: items2,
            first_change: min(m.first_change, len),
            last_change: max(m.last_change, len + 1),
            is_append: true,
            ..m
        },
        ListDiff::PopFront => BatchModel {
            items: items2,
            clear_cache: true,
            found: match m.found {
                Some((i, ev)) => Some((track_dec(i), ev)),
                None => None,
            },
            ..m
        },
        ListDiff::PopBack => BatchModel {
            items: items2,
            first_change: min(m.first_change, if len == 0 { 0 } else { len - 1 }),
            last_change: usize::MAX as int,
            ..m
        },
        ListDiff::Insert { index, value } => BatchModel {
            items: items2,
            first_change: if index == 0 {
                m.first_change
            } else {
                min(m.first_change, index as int)
            },
            last_change: if index == 0 {
                m.last_change
            } else {
                usize::MAX as int
            },
            clear_cache: m.clear_cache || index == 0,
            is_append: m.is_append || index as int >= len,
            target: if index as int > len || m.found is Some || !is_target_item(m.target, value) {
                m.target
            } else {
                None
            },
            found: if index as int > len {
                m.found
            } else {
                match m.found {
                    Some((i, ev)) => if (index as int) <= i {
                        Some((track_inc(i), ev))
                    } else {
                        Some((i, ev))
                    },
                    None => if is_target_item(m.target, value) {
                        Some((index as int, m.target->Some_0))
                    } else {
                        None
                    },
                }
            },
            ..m
        },
        ListDiff::SetAt { index, .. } => BatchModel {
            items: items2,
            first_change: min(m.first_change, index as int),
            last_change: max(m.last_change, track_inc(index as int)),
            ..m
        },
        ListDiff::Remove { index } => BatchModel {
            items: items2,
            first_change: if index == 0 {
                m.first_change
            } else {
                min(m.first_change, index as int - 1)
            },
            last_change: if index == 0 {
                m.last_change
            } else {
                usize::MAX as int
            },
            clear_cache: m.clear_cache || index == 0,
            found: if (index as int) < len {
                match m.found {
                    Some((i, ev)) => if (index as int) <= i {
                        Some((track_dec(i), ev))
                    } else {
                        Some((i, ev))
                    },
                    None => None,
                }
            } else {
                m.found
            },
            ..m
        },
        ListDiff::Truncate { length } => BatchModel {
            items: items2,
            first_change: if length == 0 {
                m.first_change
            } else {
                min(m.first_change, length as int - 1)
            },
            last_change: if length == 0 {
                m.last_change
            } else {
                usize::MAX as int
            },
            clear_cache: m.clear_cache || length == 0,
            ..m
        },
        ListDiff::Reset { values } => BatchModel { items: values@, clear_cache: true, ..m },
    }
}

/// The engine's fold state after a whole batch.
pub open spec fn batch_fold(m: BatchModel, ds: Seq<ListDiff<TimelineItem>>) -> BatchModel
    decreases ds.len(),
{
    if ds.len() == 0 {
        m
    } else {
        batch_fold(batch_step(m, ds[0]), ds.drop_first())
    }
}

/// Extending a batch by one diff advances the fold state by one step.
pub proof fn lemma_batch_fold_push(m: BatchModel, ds: Seq<ListDiff<TimelineItem>>, d: ListDiff<
    TimelineItem,
>)
    ensures
        batch_fold(m, ds.push(d)) == batch_step(batch_fold(m, ds), d),
    decreases ds.len(),
{
    if ds.len() == 0 {
        assert(ds.push(d)[0] == d);
        assert(ds.push(d).drop_first() =~= Seq::<ListDiff<TimelineItem>>::empty());
        assert(batch_fold(batch_step(m, d), Seq::<ListDiff<TimelineItem>>::empty()) == batch_step(
            m,
            d,
        ));
    } else {
        assert(ds.push(d)[0] == ds[0]);
        assert(ds.push(d).drop_first() =~= ds.drop_first().push(d));
        lemma_batch_fold_push(batch_step(m, ds[0]), ds.drop_first(), d);
    }
}

/// The fold's mirror component equals the reference model over the batch:
/// the accumulators and the search tracking never disturb the mirror.
pub proof fn lemma_batch_fold_items(m: BatchModel, ds: Seq<ListDiff<TimelineItem>>)
    ensures
        batch_fold(m, ds).items == apply_diffs(m.items, ds),
    decreases ds.len(),
{
    if ds.len() > 0 {
        lemma_batch_fold_items(batch_step(m, ds[0]), ds.drop_first());
    }
}

/// The fold's `clear_cache` flag is set exactly when some diff of the batch
/// is a bulk change or a structural change at the front of the timeline.
pub proof fn lemma_batch_fold_clear_cache(m: BatchModel, ds: Seq<ListDiff<TimelineItem>>)
    ensures
        batch_fold(m, ds).clear_cache == (m.clear_cache || exists|k: int|
            0 <= k < ds.len() && diff_clears_cache(ds[k])),
    decreases ds.len(),
{
    if ds.len() > 0 {
        lemma_batch_fold_clear_cache(batch_step(m, ds[0]), ds.drop_first());
        if batch_fold(m, ds).clear_cache {
            if !m.clear_cache {
                if diff_clears_cache(ds[0]) {
                    assert(diff_clears_cache(ds[0]) && 0 <= 0 < ds.len());
                } else {
                    let k = choose|k: int|
                        0 <= k < ds.drop_first().len() && diff_clears_cache(ds.drop_first()[k]);
                    assert(ds[k + 1] == ds.drop_first()[k]);
                }
            }
        } else {
            assert(forall|k: int|
                0 <= k < ds.len() ==> !diff_clears_cache(ds[k])) by {
                assert forall|k: int| 0 <= k < ds.len() implies !diff_clears_cache(ds[k]) by {
                    if k > 0 {
                        assert(ds.drop_first()[k - 1] == ds[k]);
                    }
                }
            }
        }
    }
}

/// What the engine hands back after replaying one diff batch: the updates to
/// deliver to the room's view, in order, and whether the room's "latest
/// event" summary should be re-derived.
pub struct BatchOutcome {
    /// The updates to send, in the order they must be delivered.
    pub updates: Vec<TimelineUpdate>,
    /// Whether the caller should re-derive the room's latest-event summary.
    /// Any non-empty batch may have changed it, so it is re-derived
    /// conservatively.
    pub reobtain_latest_event: bool,
}

/// The per-room timeline engine's state: the shadow mirror of the backend's
/// timeline, and the single-slot target-event search it coordinates.
pub struct TimelineEngine {
    /// The room this engine serves.
    pub room_id: u64,
    /// The shadow mirror: always equal to the backend's authoritative
    /// timeline vector after every diff batch.
    pub items: Vec<TimelineItem>,
    /// The event identifier to search for while older items are loaded.
    pub target_event_id: Option<u64>,
    /// The index and identifier of the target event once it has been found,
    /// kept consistent across edits until it is reported.
    pub found_target: Option<FoundTarget>,
}

impl TimelineEngine {
    /// Starts an engine over the initial subscription snapshot and produces
    /// the "first load" update that every timeline emits before its loop.
    pub fn new(room_id: u64, initial_items: Vec<TimelineItem>) -> (r: (
        TimelineEngine,
        TimelineUpdate,
    ))
        ensures
            r.0.room_id == room_id,
            r.0.items@ == initial_items@,
            r.0.target_event_id is None,
            r.0.found_target is None,
            r.1 matches TimelineUpdate::FirstUpdate { initial_items: fi } && fi@ == initial_items@,
    {
        let first = TimelineUpdate::FirstUpdate { initial_items: initial_items.clone() };
        (
            TimelineEngine {
                room_id,
                items: initial_items,
                target_event_id: None,
                found_target: None,
            },
            first,
        )
    }

    /// Replays one diff batch against the mirror, exactly in arrival order.
    ///
    /// The mirror afterwards equals the reference model applied to the whole
    /// batch. A non-empty batch produces exactly one consolidated "new
    /// items" update carrying the full mirror, the merged changed range and
    /// the two cache flags; if the sought event was located during the
    /// batch, one "target found" update follows strictly after it. The
    /// `clear_cache` flag is set exactly when some diff of the batch is a
    /// bulk change or a front-position structural change.
    pub fn apply_diff_batch(&mut self, batch: Vec<ListDiff<TimelineItem>>) -> (out: BatchOutcome)
        ensures
            final(self).room_id == old(self).room_id,
            final(self).items@ == apply_diffs(old(self).items@, batch@),
            out.reobtain_latest_event == (batch@.len() > 0),
            batch@.len() == 0 ==> (out.updates@.len() == 0
                && final(self).target_event_id == old(self).target_event_id
                && final(self).found_target == old(self).found_target),
            batch@.len() > 0 ==> ({
                let m = batch_fold(engine_batch_init(*old(self)), batch@);
                &&& out.updates@.len() == if m.found is Some {
                    2int
                } else {
                    1int
                }
                &&& out.updates@[0] matches TimelineUpdate::NewItems {
                    new_items,
                    changed_start,
                    changed_end,
                    is_append,
                    clear_cache,
                } && new_items@ == final(self).items@ && changed_start as int == m.first_change
                    && changed_end as int == m.last_change && is_append == m.is_append
                    && clear_cache == m.clear_cache
                &&& (out.updates@[0] matches TimelineUpdate::NewItems { clear_cache, .. }
                    && clear_cache == exists|k: int|
                    0 <= k < batch@.len() && diff_clears_cache(batch@[k]))
                &&& m.found matches Some(f) ==> (out.updates@[1] matches
                    TimelineUpdate::TargetEventFound { target_event_id, index }
                    && target_event_id == f.1 && index as int == f.0
                    && final(self).target_event_id is None
                    && final(self).found_target is None)
                &&& m.found is None ==> (final(self).target_event_id == m.target
                    && final(self).found_target is None)
            }),
            // A consumer applying the updates in order always receives the
            // items before being told that an index into them is valid.
            forall|i: int, j: int|
                0 <= i < j < out.updates@.len() && out.updates@[j] is TargetEventFound
                    ==> out.updates@[i] is NewItems,
    {
        let ghost batch0: Seq<ListDiff<TimelineItem>> = batch@;
        let ghost init: BatchModel = engine_batch_init(*self);
        let total: usize = batch.len();
        let mut first_change: usize = usize::MAX;
        let mut last_change: usize = 0;
        let mut clear_cache: bool = false;
        let mut is_append: bool = false;
        let mut rest: Vec<ListDiff<TimelineItem>> = batch;
        let ghost processed: Seq<ListDiff<TimelineItem>> = Seq::empty();

        proof {
            assert(processed + rest@ =~= batch0);
        }

        while rest.len() > 0
            invariant
                processed + rest@ == batch0,
                total == batch0.len(),
                self.room_id == old(self).room_id,
                batch_fold(init, processed).items == self.items@,
                batch_fold(init, processed).first_change == first_change as int,
                batch_fold(init, processed).last_change == last_change as int,
                batch_fold(init, processed).clear_cache == clear_cache,
                batch_fold(init, processed).is_append == is_append,
                batch_fold(init, processed).target == self.target_event_id,
                batch_fold(init, processed).found == found_view(self.found_target),
                init == engine_batch_init(*old(self)),
            decreases rest.len(),
        {
            let ghost m_prev: BatchModel = batch_fold(init, processed);
            let ghost rest0: Seq<ListDiff<TimelineItem>> = rest@;
            let d: ListDiff<TimelineItem> = rest.remove(0);
            proof {
                assert(rest@ =~= rest0.drop_first());
                assert((processed + rest0)[processed.len() as int] == rest0[0]);
                assert(batch0[processed.len() as int] == d);
                assert(processed.push(d) + rest@ =~= batch0);
                lemma_batch_fold_push(init, processed, d);
            }
            match d {
                ListDiff::Append { mut values } => {
                    let len_before: usize = self.items.len();
                    if len_before < first_change {
                        first_change = len_before;
                    }
                    self.items.append(&mut values);
                    if self.items.len() > last_change {
                        last_change = self.items.len();
                    }
                    is_append = true;
                }
                ListDiff::Clear => {
                    clear_cache = true;
                    self.items.clear();
                }
                ListDiff::PushFront { value } => {
                    match self.found_target {
                        Some(ft) => {
                            let new_index: usize = if ft.index < usize::MAX {
                                ft.index + 1
                            } else {
                                ft.index
                            };
                            self.found_target = Some(
                                FoundTarget { index: new_index, event_id: ft.event_id },
                            );
                        }
                        None => {
                            if let Some(target) = self.target_event_id {
                                if let Some(id) = value.event_id {
                                    if id == target {
                                        self.found_target = Some(
                                            FoundTarget { index: 0, event_id: target },
                                        );
                                        self.target_event_id = None;
                                    }
                                }
                            }
                        }
                    }
                    clear_cache = true;
                    self.items.insert(0, value);
                }
                ListDiff::PushBack { value } => {
                    let len_before: usize = self.items.len();
                    if len_before < first_change {
                        first_change = len_before;
                    }
                    self.items.push(value);
                    if self.items.len() > last_change {
                        last_change = self.items.len();
                    }
                    is_append = true;
                }
                ListDiff::PopFront => {
                    clear_cache = true;
                    if self.items.len() > 0 {
                        self.items.remove(0);
                    }
                    if let Some(ft) = self.found_target {
                        let new_index: usize = if ft.index > 0 {
                            ft.index - 1
                        } else {
                            0
                        };
                        self.found_target = Some(
                            FoundTarget { index: new_index, event_id: ft.event_id },
                        );
                    }
                }
                ListDiff::PopBack => {
                    if self.items.len() > 0 {
                        self.items.pop();
                    }
                    if self.items.len() < first_change {
                        first_change = self.items.len();
                    }
                    last_change = usize::MAX;
                }
                ListDiff::Insert { index, value } => {
                    if index == 0 {
                        clear_cache = true;
                    } else {
                        if index < first_change {
                            first_change = index;
                        }
                        last_change = usize::MAX;
                    }
                    if index >= self.items.len() {
                        is_append = true;
                    }
                    if index <= self.items.len() {
                        match self.found_target {
                            Some(ft) => {
                                if index <= ft.index {
                                    let new_index: usize = if ft.index < usize::MAX {
                                        ft.index + 1
                                    } else {
                                        ft.index
                                    };
                                    self.found_target = Some(
                                        FoundTarget { index: new_index, event_id: ft.event_id },
                                    );
                                }
                            }
                            None => {
                                if let Some(target) = self.target_event_id {
                                    if let Some(id) = value.event_id {
                                        if id == target {
                                            self.found_target = Some(
                                                FoundTarget { index, event_id: target },
                                            );
                                            self.target_event_id = None;
                                        }
                                    }
                                }
                            }
                        }
                        self.items.insert(index, value);
                    }
                }
                ListDiff::SetAt { index, value } => {
                    if index < first_change {
                        first_change = index;
                    }
                    let bumped: usize = if index < usize::MAX {
                        index + 1
                    } else {
                        index
                    };
                    if bumped > last_change {
                        last_change = bumped;
                    }
                    if index < self.items.len() {
                        self.items.remove(index);
                        self.items.insert(index, value);
                        assert(self.items@ =~= m_prev.items.update(index as int, value));
                    }
                }
                ListDiff::Remove { index } => {
                    if index == 0 {
                        clear_cache = true;
                    } else {
                        if index - 1 < first_change {
                            first_change = index - 1;
                        }
                        last_change = usize::MAX;
                    }
                    if index < self.items.len() {
                        if let Some(ft) = self.found_target {
                            if index <= ft.index {
                                let new_index: usize = if ft.index > 0 {
                                    ft.index - 1
                                } else {
                                    0
                                };
                                self.found_target = Some(
                                    FoundTarget { index: new_index, event_id: ft.event_id },
                                );
                            }
                        }
                        self.items.remove(index);
                    }
                }
                ListDiff::Truncate { length } => {
                    if length == 0 {
                        clear_cache = true;
                    } else {
                        if length - 1 < first_change {
                            first_change = length - 1;
                        }
                        last_change = usize::MAX;
                    }
                    self.items.truncate(length);
                    assert(self.items@ =~= apply_diff(
                        m_prev.items,
                        ListDiff::Truncate { length },
                    ));
                }
                ListDiff::Reset { values } => {
                    clear_cache = true;
                    self.items = values;
                }
            }
            proof {
                processed = processed.push(d);
            }
        }

        proof {
            assert(processed =~= batch0);
            lemma_batch_fold_items(init, batch0);
            lemma_batch_fold_clear_cache(init, batch0);
        }

        let mut updates: Vec<TimelineUpdate> = Vec::new();
        if total > 0 {
            updates.push(
                TimelineUpdate::NewItems {
                    new_items: self.items.clone(),
                    changed_start: first_change,
                    changed_end: last_change,
                    is_append,
                    clear_cache,
                },
            );
            if let Some(ft) = self.found_target {
                self.found_target = None;
                self.target_event_id = None;
                updates.push(
                    TimelineUpdate::TargetEventFound {
                        target_event_id: ft.event_id,
                        index: ft.index,
                    },
                );
            }
        }
        BatchOutcome { updates, reobtain_latest_event: total > 0 }
    }

    /// Reacts to a change of the room's single-slot search request.
    ///
    /// A request naming a new target first scans the mirror backwards,
    /// newest to oldest, starting at the resume index. If the mirror's
    /// length no longer matches the length recorded in the request, the
    /// resume index is stale and the scan falls back to starting from the
    /// mirror's current end; the scan therefore never reads out of bounds.
    /// When the target is already in the mirror it is reported at once and
    /// no pagination request is issued; otherwise the engine keeps the
    /// target and asks for one backward pagination of fixed batch size. A
    /// request for the target already being sought changes nothing, and an
    /// empty request clears the slot without side effects.
    #[verifier::loop_isolation(false)]
    pub fn handle_search_request(
        &mut self,
        request: Option<&BackwardsPaginateUntilEventRequest>,
    ) -> (r: SearchOutcome)
        ensures
            final(self).room_id == old(self).room_id,
            final(self).items@ == old(self).items@,
            request is None ==> (r is Cleared && final(self).target_event_id is None && final(self).found_target == old(self).found_target),
            request matches Some(req) ==> ({
                let resume = effective_resume(*req, old(self).items@.len() as int);
                &&& old(self).target_event_id == Some(req.target_event_id) ==> (r is Unchanged
                    && final(self).target_event_id == old(self).target_event_id
                    && final(self).found_target == old(self).found_target)
                &&& (old(self).target_event_id != Some(req.target_event_id) && (exists|j: int|
                    0 <= j < resume && is_target_item(
                        Some(req.target_event_id),
                        old(self).items@[j],
                    ))) ==> (r matches SearchOutcome::Found { target_event_id, index }
                    && target_event_id == req.target_event_id && 0 <= (index as int) < resume
                    && is_target_item(Some(req.target_event_id), old(self).items@[index as int])
                    && (forall|k: int|
                    (index as int) < k < resume ==> !is_target_item(
                        Some(req.target_event_id),
                        old(self).items@[k],
                    )) && final(self).target_event_id is None && final(self).found_target is None)
                &&& (old(self).target_event_id != Some(req.target_event_id) && (forall|j: int|
                    0 <= j < resume ==> !is_target_item(
                        Some(req.target_event_id),
                        old(self).items@[j],
                    ))) ==> (r matches SearchOutcome::PaginateBackwards { num_events }
                    && num_events == SEARCH_PAGINATION_BATCH_SIZE && final(self).target_event_id
                    == Some(req.target_event_id) && final(self).found_target == old(self).found_target)
            }),
    {
        match request {
            None => {
                self.target_event_id = None;
                SearchOutcome::Cleared
            }
            Some(req) => {
                let target: u64 = req.target_event_id;
                let is_same: bool = match self.target_event_id {
                    Some(t) => t == target,
                    None => false,
                };
                if is_same {
                    return SearchOutcome::Unchanged;
                }
                let len: usize = self.items.len();
                let resume: usize = if req.current_tl_len == len {
                    if req.starting_index >= len {
                        len
                    } else {
                        req.starting_index + 1
                    }
                } else {
                    // The mirror changed since the request was made, so the
                    // resume index cannot be trusted: scan from the end.
                    len
                };
                let mut k: usize = resume;
                while k > 0
                    invariant
                        k <= resume,
                        resume <= self.items@.len(),
                        self == old(self),
                        target == req.target_event_id,
                        forall|m: int|
                            k <= m < resume ==> !is_target_item(Some(target), self.items@[m]),
                    decreases k,
                {
                    k = k - 1;
                    let found_here: bool = match self.items[k].event_id {
                        Some(id) => id == target,
                        None => false,
                    };
                    if found_here {
                        self.target_event_id = None;
                        self.found_target = None;
                        return SearchOutcome::Found { target_event_id: target, index: k };
                    }
                }
                self.target_event_id = Some(target);
                SearchOutcome::PaginateBackwards { num_events: SEARCH_PAGINATION_BATCH_SIZE }
            }
        }
    }
}

/// The fixed number of events that each backward pagination request issued
/// by the target-event search fetches.
pub const SEARCH_PAGINATION_BATCH_SIZE: u16 = 50;

/// The update that ends one pagination request: completion becomes an idle
/// notice carrying whether the timeline's start (or end) was fully
/// reached, and a failure becomes a pagination-error notice carrying the
/// direction and the failure's description, so the view can show a status
/// without the engine terminating.
pub fn pagination_result_update(direction: PaginationDirection, outcome: Result<bool, String>) -> (
    u: TimelineUpdate)
    ensures
        outcome matches Ok(fully_paginated) ==> u == (TimelineUpdate::PaginationIdle {
            fully_paginated,
            direction,
        }),
        outcome matches Err(message) ==> u == (TimelineUpdate::PaginationError {
            direction,
            message,
        }),
{
    match outcome {
        Ok(fully_paginated) => TimelineUpdate::PaginationIdle { fully_paginated, direction },
        Err(message) => TimelineUpdate::PaginationError { direction, message },
    }
}

/// The first index beyond the backward scan for a search request: one past
/// the requested resume index, unless the mirror's length no longer matches
/// the length recorded at request time, in which case the resume index is
/// discarded and the scan covers the whole mirror from its current end.
pub open spec fn effective_resume(req: BackwardsPaginateUntilEventRequest, len: int) -> int {
    if req.current_tl_len == len {
        min(req.starting_index as int + 1, len)
    } else {
        len
    }
}

/// What the latest event of a room contains, as far as the reconciliation
/// cares: a room rename, an avatar change, a power-level change, a
/// membership change, or anything else.
#[derive(Clone, Debug)]
pub enum LatestEventContent {
    /// The room was renamed.
    RoomNameChange {
        /// The room's new displayable name.
        new_name: String,
    },
    /// The room's avatar changed; the caller fetches the new one.
    RoomAvatarChange,
    /// The room's power levels changed; the table is already resolved for
    /// the logged-in user.
    PowerLevelsChange(crate::power_levels::RoomPowerLevelsSnapshot),
    /// A user's membership changed.
    MembershipChange {
        /// Whether the change is a join or an accepted invitation.
        is_join: bool,
        /// Whether the member is the logged-in user.
        user_is_self: bool,
    },
    /// Anything else.
    Other,
}

/// A room's latest event, reduced to what the reconciliation reads.
#[derive(Clone, Debug)]
pub struct LatestEventDetails {
    /// The event's timestamp, in milliseconds since the epoch.
    pub timestamp: u64,
    /// The rendered text preview of the event.
    pub latest_message_text: String,
    /// What the event contains.
    pub content: LatestEventContent,
}

/// What handling a room's new latest event asks the caller to do.
pub struct LatestEventOutcome {
    /// Whether the room's avatar changed and should be fetched anew.
    pub room_avatar_changed: bool,
    /// The updates to send to the room's own timeline view.
    pub timeline_updates: Vec<TimelineUpdate>,
    /// Whether the logged-in user just joined, so the room's power levels
    /// should be fetched.
    pub request_power_levels: bool,
}

/// Handles a room's updated latest event: a room rename becomes a
/// room-name update, a power-level change becomes a power-level update for
/// the room's view, the logged-in user's own join asks for a power-level
/// fetch, an avatar change is reported so the caller fetches the new
/// avatar — and, always last, the latest-event summary itself is forwarded
/// so the room's preview in the rooms list stays current.
pub fn update_latest_event(
    room_id: u64,
    event: LatestEventDetails,
    queue: &mut crate::update_queue::RoomsUpdateQueue,
) -> (r: LatestEventOutcome)
    ensures
        r.room_avatar_changed == (event.content is RoomAvatarChange),
        event.content matches LatestEventContent::PowerLevelsChange(levels) ==> ({
            &&& r.timeline_updates@.len() == 1
            &&& r.timeline_updates@[0] matches TimelineUpdate::UserPowerLevels(p) && p.ban == (
                levels.user_power >= levels.ban) && p.room_message == (levels.user_power
                >= levels.room_message) && p.message == (levels.user_power >= levels.message)
        }),
        !(event.content is PowerLevelsChange) ==> r.timeline_updates@.len() == 0,
        r.request_power_levels == (event.content matches LatestEventContent::MembershipChange {
            is_join: true,
            user_is_self: true,
        }),
        (event.content matches LatestEventContent::RoomNameChange { new_name } ==> final(queue)@
            == old(queue)@.push(
            crate::rooms_list::RoomsListUpdate::UpdateRoomName { room_id, new_room_name: new_name },
        ).push(
            crate::rooms_list::RoomsListUpdate::UpdateLatestEvent {
                room_id,
                timestamp: event.timestamp,
                latest_message_text: event.latest_message_text,
            },
        )),
        !(event.content is RoomNameChange) ==> final(queue)@ == old(queue)@.push(
            crate::rooms_list::RoomsListUpdate::UpdateLatestEvent {
                room_id,
                timestamp: event.timestamp,
                latest_message_text: event.latest_message_text,
            },
        ),
{
    let LatestEventDetails { timestamp, latest_message_text, content } = event;
    let mut room_avatar_changed: bool = false;
    let mut timeline_updates: Vec<TimelineUpdate> = Vec::new();
    let mut request_power_levels: bool = false;
    match content {
        LatestEventContent::RoomNameChange { new_name } => {
            queue.push(
                crate::rooms_list::RoomsListUpdate::UpdateRoomName {
                    room_id,
                    new_room_name: new_name,
                },
            );
        }
        LatestEventContent::RoomAvatarChange => {
            room_avatar_changed = true;
        }
        LatestEventContent::PowerLevelsChange(levels) => {
            timeline_updates.push(
                TimelineUpdate::UserPowerLevels(crate::power_levels::UserPowerLevels::from(&levels)),
            );
        }
        LatestEventContent::MembershipChange { is_join, user_is_self } => {
            if is_join && user_is_self {
                request_power_levels = true;
            }
        }
        LatestEventContent::Other => {}
    }
    queue.push(
        crate::rooms_list::RoomsListUpdate::UpdateLatestEvent {
            room_id,
            timestamp,
            latest_message_text,
        },
    );
    LatestEventOutcome { room_avatar_changed, timeline_updates, request_power_levels }
}

/// What the engine decided about a change of the room's search request.
#[derive(Clone, Copy, Debug)]
pub enum SearchOutcome {
    /// No request is pending: the search slot was cleared, with no side
    /// effects.
    Cleared,
    /// The request names the target already being sought: nothing changed.
    Unchanged,
    /// The target event is already in the mirror at the given index: report
    /// it and issue no pagination request.
    Found {
        /// The event that was sought.
        target_event_id: u64,
        /// Its index in the mirror.
        index: usize,
    },
    /// The target is not in the mirrored part of the timeline: keep the
    /// search open and fetch older items backwards.
    PaginateBackwards {
        /// How many older events to fetch.
        num_events: u16,
    },
}

} // verus!
