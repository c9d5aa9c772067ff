//! The UI-side state of one room's timeline view.
//!
//! The view is the sole consumer of its room's timeline updates: it drains
//! them in arrival order, keeps its own copy of the mirror, tracks which
//! index ranges of the two per-room caches (event content, sender profile)
//! are still valid — clearing them incrementally on ordinary updates and
//! fully on structural resets — and reports what the caller should do next
//! (keep paginating backwards, stop the search, show the loading state).

use vstd::prelude::*;

use crate::power_levels::{all_powers, UserPowerLevels};
use crate::range_set::{
    range_set_clear, range_set_indices, range_set_new, range_set_remove,
};
use crate::timeline::{ReadReceipt, TimelineItem, TimelineUpdate};

verus! {

/// Displayable info about one member of a room.
#[derive(Clone, Debug)]
pub struct FrontendRoomMember {
    /// The member's displayable name.
    pub name: String,
    /// The member's normalized power level.
    pub max_power_level: i64,
    /// Whether the displayed name is ambiguous within the room.
    pub display_name_ambiguous: bool,
    /// Whether the logged-in user has ignored this member.
    pub is_ignored: bool,
}

/// The view states saved when a timeline is hidden and restored when it is
/// shown again.
#[derive(Clone, Copy, Debug, PartialEq, Eq)]
pub struct SavedState {
    /// The index of the first visible item, if the user has scrolled.
    pub first_index: Option<usize>,
    /// The event being edited when the view was hidden, if any.
    pub editing_event_id: Option<u64>,
}

impl Default for SavedState {
    /// A fresh view has not been scrolled and edits nothing.
    fn default() -> (r: SavedState)
        ensures
            r.first_index is None,
            r.editing_event_id is None,
    {
        SavedState { first_index: None, editing_event_id: None }
    }
}

/// The UI-side state of a single room's timeline, persisted across
/// hide/show cycles of that room's view.
pub struct TimelineUiState {
    /// The room this state belongs to.
    pub room_id: u64,
    /// The logged-in user's power levels in this room.
    pub user_power: UserPowerLevels,
    /// Whether this timeline has been fully paginated backwards. While
    /// `true`, no further backwards pagination request is sent; it is reset
    /// whenever the timeline is structurally cleared.
    pub fully_paginated: bool,
    /// The view's copy of the timeline mirror.
    pub items: Vec<TimelineItem>,
    /// The indices whose event contents have been drawn since the last
    /// update and need not be redrawn.
    pub content_drawn_since_last_update: rangemap::RangeSet<usize>,
    /// The indices whose sender profiles have been drawn since the last
    /// update and need not be redrawn.
    pub profile_drawn_since_last_update: rangemap::RangeSet<usize>,
    /// The view states restored when the room is shown again.
    pub saved_state: SavedState,
    /// The index most recently scrolled past.
    pub last_scrolled_index: usize,
    /// The first visible index from before the last jump, if any.
    pub prev_first_index: Option<usize>,
    /// Whether the user has scrolled past their latest read marker.
    pub scrolled_past_read_marker: bool,
    /// The logged-in user's own latest read receipt, if known.
    pub latest_own_user_receipt: Option<ReadReceipt>,
}

/// The mathematical model of a timeline view's state.
#[verifier::ext_equal]
pub ghost struct TimelineUiView {
    /// The room this state belongs to.
    pub room_id: u64,
    /// The logged-in user's power levels in this room.
    pub user_power: UserPowerLevels,
    /// Whether this timeline has been fully paginated backwards.
    pub fully_paginated: bool,
    /// The view's copy of the timeline mirror.
    pub items: Seq<TimelineItem>,
    /// The still-valid drawn indices of the event-content cache.
    pub content_drawn: Set<int>,
    /// The still-valid drawn indices of the sender-profile cache.
    pub profile_drawn: Set<int>,
    /// The view states restored when the room is shown again.
    pub saved_state: SavedState,
    /// The index most recently scrolled past.
    pub last_scrolled_index: usize,
    /// The first visible index from before the last jump, if any.
    pub prev_first_index: Option<usize>,
    /// Whether the user has scrolled past their latest read marker.
    pub scrolled_past_read_marker: bool,
    /// The logged-in user's own latest read receipt, if known.
    pub latest_own_user_receipt: Option<ReadReceipt>,
}

impl View for TimelineUiState {
    type V = TimelineUiView;

    /// The mathematical model of this view state.
    open spec fn view(&self) -> TimelineUiView {
        TimelineUiView {
            room_id: self.room_id,
            user_power: self.user_power,
            fully_paginated: self.fully_paginated,
            items: self.items@,
            content_drawn: range_set_indices(self.content_drawn_since_last_update),
            profile_drawn: range_set_indices(self.profile_drawn_since_last_update),
            saved_state: self.saved_state,
            last_scrolled_index: self.last_scrolled_index,
            prev_first_index: self.prev_first_index,
            scrolled_past_read_marker: self.scrolled_past_read_marker,
            latest_own_user_receipt: self.latest_own_user_receipt,
        }
    }
}

/// Whether a member with this user identifier is recorded.
pub open spec fn has_member(s: Seq<(String, FrontendRoomMember)>, uid: Seq<char>) -> bool {
    exists|i: int| 0 <= i < s.len() && s[i].0@ == uid
}

/// The position of the member with this user identifier.
pub open spec fn member_index(s: Seq<(String, FrontendRoomMember)>, uid: Seq<char>) -> int {
    choose|i: int| 0 <= i < s.len() && s[i].0@ == uid
}

/// Member user identifiers are distinct.
pub open spec fn members_wf(s: Seq<(String, FrontendRoomMember)>) -> bool {
    forall|i: int, j: int| 0 <= i < j < s.len() ==> s[i].0@ != s[j].0@
}

/// Inserts one member record, replacing the record with the same user
/// identifier if one exists.
pub open spec fn upsert_member(
    s: Seq<(String, FrontendRoomMember)>,
    pair: (String, FrontendRoomMember),
) -> Seq<(String, FrontendRoomMember)> {
    if has_member(s, pair.0@) {
        s.update(member_index(s, pair.0@), pair)
    } else {
        s.push(pair)
    }
}

/// Inserts a list of member records in order, each replacing any previous
/// record with the same user identifier.
pub open spec fn merge_members(
    s: Seq<(String, FrontendRoomMember)>,
    list: Seq<(String, FrontendRoomMember)>,
) -> Seq<(String, FrontendRoomMember)>
    decreases list.len(),
{
    if list.len() == 0 {
        s
    } else {
        merge_members(upsert_member(s, list[0]), list.drop_first())
    }
}

/// The state that the view folds over a sequence of updates: the view
/// itself, the member table, and the flags reported to the caller.
#[verifier::ext_equal]
pub ghost struct ConsumerModel {
    /// The view state.
    pub tl: TimelineUiView,
    /// The room's member table, keyed by user identifier.
    pub members: Seq<(String, FrontendRoomMember)>,
    /// Whether the view may hide its loading indicator.
    pub done_loading: bool,
    /// Whether the caller should issue another backwards pagination
    /// request.
    pub should_continue_backwards_pagination: bool,
    /// Whether the caller should clear this room's pending search
    /// requests: the sought event was reported.
    pub clear_search_request: bool,
    /// For the last "target found" update: whether the reported index
    /// still pointed at the target in the current items.
    pub target_found_valid: Option<bool>,
    /// The most recent list of typing users.
    pub typing_users: Seq<String>,
}

/// The fold state before any update of a drain cycle is applied.
pub open spec fn consumer_init(
    tl: TimelineUiView,
    members: Seq<(String, FrontendRoomMember)>,
) -> ConsumerModel {
    ConsumerModel {
        tl,
        members,
        done_loading: false,
        should_continue_backwards_pagination: false,
        clear_search_request: false,
        target_found_valid: None,
        typing_users: Seq::empty(),
    }
}

/// The step for the "first load" update.
pub open spec fn step_first_update(m: ConsumerModel, initial_items: Seq<TimelineItem>) -> ConsumerModel {
    ConsumerModel {
        tl: TimelineUiView {
            fully_paginated: false,
            items: initial_items,
            content_drawn: Set::empty(),
            profile_drawn: Set::empty(),
            ..m.tl
        },
        done_loading: true,
        ..m
    }
}

/// The view after one consolidated "new items" update: the mirror is
/// replaced; a structural reset clears both drawn caches entirely and
/// forgets full pagination; an ordinary update clears exactly the changed
/// range from both caches.
pub open spec fn step_new_items_view(
    tl: TimelineUiView,
    new_items: Seq<TimelineItem>,
    changed_start: usize,
    changed_end: usize,
    clear_cache: bool,
) -> TimelineUiView {
    if clear_cache {
        TimelineUiView {
            content_drawn: Set::empty(),
            profile_drawn: Set::empty(),
            fully_paginated: false,
            items: new_items,
            ..tl
        }
    } else if changed_start < changed_end {
        TimelineUiView {
            content_drawn: tl.content_drawn.difference(
                Set::new(|i: int| changed_start <= i < changed_end),
            ),
            profile_drawn: tl.profile_drawn.difference(
                Set::new(|i: int| changed_start <= i < changed_end),
            ),
            items: new_items,
            ..tl
        }
    } else {
        TimelineUiView { items: new_items, ..tl }
    }
}

/// The step for one consolidated "new items" update.
pub open spec fn step_new_items(
    m: ConsumerModel,
    new_items: Seq<TimelineItem>,
    changed_start: usize,
    changed_end: usize,
    clear_cache: bool,
) -> ConsumerModel {
    ConsumerModel {
        tl: step_new_items_view(m.tl, new_items, changed_start, changed_end, clear_cache),
        done_loading: true,
        should_continue_backwards_pagination: if new_items.len() == 0 && m.tl.items.len() > 0 {
            true
        } else {
            m.should_continue_backwards_pagination
        },
        ..m
    }
}

/// The step for a "target found" update.
pub open spec fn step_target_found(m: ConsumerModel, target_event_id: u64, index: usize) -> ConsumerModel {
    ConsumerModel {
        clear_search_request: true,
        target_found_valid: Some(
            index < m.tl.items.len() && m.tl.items[index as int].event_id == Some(
                target_event_id,
            ),
        ),
        should_continue_backwards_pagination: false,
        ..m
    }
}

/// The step for a pagination-completed notice.
pub open spec fn step_pagination_idle(
    m: ConsumerModel,
    fully_paginated: bool,
    direction: crate::timeline::PaginationDirection,
) -> ConsumerModel {
    if direction is Backwards {
        ConsumerModel {
            tl: TimelineUiView { fully_paginated, ..m.tl },
            done_loading: if fully_paginated {
                true
            } else {
                m.done_loading
            },
            ..m
        }
    } else {
        m
    }
}

/// How one update advances the view. Structural resets clear both drawn
/// caches entirely and forget that the timeline was fully paginated;
/// ordinary updates clear exactly the changed range from both caches. A
/// "new items" update that empties a non-empty timeline asks for backwards
/// pagination so there is something to show again; a "target found" update
/// ends both the search and any continued pagination.
pub open spec fn consumer_step(m: ConsumerModel, u: TimelineUpdate) -> ConsumerModel {
    match u {
        TimelineUpdate::FirstUpdate { initial_items } => step_first_update(m, initial_items@),
        TimelineUpdate::NewItems {
            new_items,
            changed_start,
            changed_end,
            clear_cache,
            ..
        } => step_new_items(m, new_items@, changed_start, changed_end, clear_cache),
        TimelineUpdate::NewUnreadMessagesCount(..) => m,
        TimelineUpdate::TargetEventFound { target_event_id, index } => step_target_found(
            m,
            target_event_id,
            index,
        ),
        TimelineUpdate::PaginationRunning(direction) => if direction is Backwards {
            ConsumerModel { done_loading: false, ..m }
        } else {
            m
        },
        TimelineUpdate::PaginationError { .. } => ConsumerModel { done_loading: true, ..m },
        TimelineUpdate::PaginationIdle { fully_paginated, direction } => step_pagination_idle(
            m,
            fully_paginated,
            direction,
        ),
        TimelineUpdate::EventDetailsFetched { .. } => m,
        TimelineUpdate::MessageEdited { .. } => m,
        TimelineUpdate::RoomMembersSynced => m,
        TimelineUpdate::RoomMembersListFetched { members } => ConsumerModel {
            members: merge_members(m.members, members@),
            ..m
        },
        TimelineUpdate::MediaFetched => m,
        TimelineUpdate::TypingUsers { users } => ConsumerModel { typing_users: users@, ..m },
        TimelineUpdate::UserPowerLevels(p) => ConsumerModel {
            tl: TimelineUiView { user_power: p, ..m.tl },
            ..m
        },
        TimelineUpdate::OwnUserReadReceipt(r) => ConsumerModel {
            tl: TimelineUiView { latest_own_user_receipt: Some(r), ..m.tl },
            ..m
        },
    }
}

/// The fold state after a whole sequence of updates, applied in order.
pub open spec fn consumer_fold(m: ConsumerModel, us: Seq<TimelineUpdate>) -> ConsumerModel
    decreases us.len(),
{
    if us.len() == 0 {
        m
    } else {
        consumer_fold(consumer_step(m, us[0]), us.drop_first())
    }
}

/// What one drain cycle reports back to the caller.
pub struct ProcessOutcome {
    /// Whether the view may hide its loading indicator.
    pub done_loading: bool,
    /// Whether the caller should issue another backwards pagination
    /// request.
    pub should_continue_backwards_pagination: bool,
    /// Whether the caller should clear this room's pending search
    /// requests.
    pub clear_search_request: bool,
    /// For the last "target found" update: whether the reported index
    /// still pointed at the target.
    pub target_found_valid: Option<bool>,
    /// The most recent list of typing users.
    pub typing_users: Vec<String>,
}

/// Finds the position of a member record by its user identifier.
fn find_member(members: &Vec<(String, FrontendRoomMember)>, uid: &String) -> (r: Option<usize>)
    ensures
        match r {
            Some(i) => i < members@.len() && members@[i as int].0@ == uid@,
            None => !has_member(members@, uid@),
        },
{
    let mut i: usize = 0;
    while i < members.len()
        invariant
            i <= members@.len(),
            forall|k: int| 0 <= k < i ==> members@[k].0@ != uid@,
        decreases members@.len() - i,
    {
        let pair: &(String, FrontendRoomMember) = &members[i];
        if pair.0.eq(uid) {
            return Some(i);
        }
        i = i + 1;
    }
    None
}

impl TimelineUiState {
    /// A fresh view state for a room being shown for the first time. The
    /// user is assumed to hold all power levels until the real levels have
    /// been fetched, and the timeline counts as not yet fully paginated.
    pub fn new(room_id: u64) -> (r: TimelineUiState)
        ensures
            r@.room_id == room_id,
            all_powers(r@.user_power),
            !r@.fully_paginated,
            r@.items == Seq::<TimelineItem>::empty(),
            r@.content_drawn == Set::<int>::empty(),
            r@.profile_drawn == Set::<int>::empty(),
            r@.saved_state.first_index is None,
            r@.saved_state.editing_event_id is None,
            r@.last_scrolled_index == usize::MAX,
            r@.prev_first_index is None,
            !r@.scrolled_past_read_marker,
            r@.latest_own_user_receipt is None,
    {
        TimelineUiState {
            room_id,
            user_power: UserPowerLevels::all(),
            fully_paginated: false,
            items: Vec::new(),
            content_drawn_since_last_update: range_set_new(),
            profile_drawn_since_last_update: range_set_new(),
            saved_state: SavedState { first_index: None, editing_event_id: None },
            last_scrolled_index: usize::MAX,
            prev_first_index: None,
            scrolled_past_read_marker: false,
            latest_own_user_receipt: None,
        }
    }

    /// Whether this item's event content is still drawn from before and
    /// need not be repopulated.
    pub fn is_content_drawn(&self, index: usize) -> (r: bool)
        ensures
            r == self@.content_drawn.contains(index as int),
    {
        crate::range_set::range_set_contains(&self.content_drawn_since_last_update, index)
    }

    /// Whether this item's sender profile is still drawn from before and
    /// need not be repopulated.
    pub fn is_profile_drawn(&self, index: usize) -> (r: bool)
        ensures
            r == self@.profile_drawn.contains(index as int),
    {
        crate::range_set::range_set_contains(&self.profile_drawn_since_last_update, index)
    }

    /// Processes all pending updates for this room's view, in arrival
    /// order. The view and member table afterwards are exactly the
    /// reference model's fold over the updates, and the returned flags are
    /// the fold's.
    pub fn process_updates(
        &mut self,
        updates: Vec<TimelineUpdate>,
        members: &mut Vec<(String, FrontendRoomMember)>,
    ) -> (out: ProcessOutcome)
        requires
            members_wf(old(members)@),
        ensures
            members_wf(final(members)@),
            ({
                let m = consumer_fold(consumer_init(old(self)@, old(members)@), updates@);
                &&& final(self)@ == m.tl
                &&& final(members)@ == m.members
                &&& out.done_loading == m.done_loading
                &&& out.should_continue_backwards_pagination
                    == m.should_continue_backwards_pagination
                &&& out.clear_search_request == m.clear_search_request
                &&& out.target_found_valid == m.target_found_valid
                &&& out.typing_users@ == m.typing_users
            }),
    {
        let ghost us0: Seq<TimelineUpdate> = updates@;
        let ghost init: ConsumerModel = consumer_init(self@, members@);
        let mut acc: ProcessOutcome = ProcessOutcome {
            done_loading: false,
            should_continue_backwards_pagination: false,
            clear_search_request: false,
            target_found_valid: None,
            typing_users: Vec::new(),
        };
        let mut rest: Vec<TimelineUpdate> = updates;

        while rest.len() > 0
            invariant
                members_wf(members@),
                consumer_fold(init, us0) == consumer_fold(
                    consumer_model_of(self@, members@, acc),
                    rest@,
                ),
            decreases rest.len(),
        {
            let ghost m_pre: ConsumerModel = consumer_model_of(self@, members@, acc);
            let ghost rest_pre: Seq<TimelineUpdate> = rest@;
            let u: TimelineUpdate = rest.remove(0);
            proof {
                assert(rest@ =~= rest_pre.drop_first());
                assert(rest_pre[0] == u);
            }
            self.apply_timeline_update(u, members, &mut acc);
            proof {
                assert(consumer_fold(m_pre, rest_pre) == consumer_fold(
                    consumer_step(m_pre, u),
                    rest@,
                ));
            }
        }
        acc
    }

    /// Applies one update to the view, the member table and the drain
    /// cycle's accumulated flags, exactly as the reference model's step.
    fn apply_timeline_update(
        &mut self,
        update: TimelineUpdate,
        members: &mut Vec<(String, FrontendRoomMember)>,
        acc: &mut ProcessOutcome,
    )
        requires
            members_wf(old(members)@),
        ensures
            members_wf(final(members)@),
            consumer_model_of(final(self)@, final(members)@, *final(acc)) == consumer_step(
                consumer_model_of(old(self)@, old(members)@, *old(acc)),
                update,
            ),
    {
        let ghost m0: ConsumerModel = consumer_model_of(old(self)@, old(members)@, *old(acc));
        match &update {
            TimelineUpdate::FirstUpdate { .. } => {
                self.apply_first_update(update, members, acc);
            }
            TimelineUpdate::NewItems { .. } => {
                self.apply_new_items(update, members, acc);
            }
            TimelineUpdate::RoomMembersListFetched { .. } => {
                let fetched: Vec<(String, FrontendRoomMember)> = match update {
                    TimelineUpdate::RoomMembersListFetched { members: f } => f,
                    _ => Vec::new(),
                };
                merge_member_list(members, fetched);
                proof {
                    assert(consumer_model_of(self@, members@, *acc) =~= consumer_step(
                        m0,
                        TimelineUpdate::RoomMembersListFetched { members: fetched },
                    ));
                }
            }
            _ => {
                self.apply_light_update(update, members, acc);
            }
        }
    }

    /// Applies the "first load" update: the mirror is replaced by the
    /// initial snapshot, both drawn caches are cleared, and the timeline
    /// counts as not yet fully paginated.
    #[verifier::rlimit(100)]
    #[verifier::spinoff_prover]
    fn apply_first_update(
        &mut self,
        update: TimelineUpdate,
        members: &Vec<(String, FrontendRoomMember)>,
        acc: &mut ProcessOutcome,
    )
        requires
            update is FirstUpdate,
        ensures
            consumer_model_of(final(self)@, members@, *final(acc)) == consumer_step(
                consumer_model_of(old(self)@, members@, *old(acc)),
                update,
            ),
    {
        let ghost m0: ConsumerModel = consumer_model_of(old(self)@, members@, *old(acc));
        match update {
            TimelineUpdate::FirstUpdate { initial_items } => {
                range_set_clear(&mut self.content_drawn_since_last_update);
                range_set_clear(&mut self.profile_drawn_since_last_update);
                self.fully_paginated = false;
                self.items = initial_items;
                acc.done_loading = true;
                proof {
                    assert(consumer_model_of(self@, members@, *acc) =~= step_first_update(
                        m0,
                        initial_items@,
                    ));
                }
            }
            _ => {
                proof {
                    assert(false);
                }
            }
        }
    }

    /// Applies one consolidated "new items" update: the view changes as
    /// the reference model says, and an update that empties a non-empty
    /// timeline asks for backwards pagination.
    fn apply_new_items(
        &mut self,
        update: TimelineUpdate,
        members: &Vec<(String, FrontendRoomMember)>,
        acc: &mut ProcessOutcome,
    )
        requires
            update is NewItems,
        ensures
            consumer_model_of(final(self)@, members@, *final(acc)) == consumer_step(
                consumer_model_of(old(self)@, members@, *old(acc)),
                update,
            ),
    {
        let ghost m0: ConsumerModel = consumer_model_of(old(self)@, members@, *old(acc));
        match update {
            TimelineUpdate::NewItems {
                new_items,
                changed_start,
                changed_end,
                is_append: _,
                clear_cache,
            } => {
                if new_items.len() == 0 && self.items.len() > 0 {
                    // The timeline was emptied: paginate backwards so there
                    // is something to show again.
                    acc.should_continue_backwards_pagination = true;
                }
                self.new_items_state(new_items, changed_start, changed_end, clear_cache);
                acc.done_loading = true;
                proof {
                    assert(consumer_model_of(self@, members@, *acc) =~= consumer_step(
                        m0,
                        update,
                    ));
                }
            }
            _ => {
                proof {
                    assert(false);
                }
            }
        }
    }

    /// Replaces the mirror and performs the cache-invalidation bookkeeping
    /// for one "new items" update.
    fn new_items_state(
        &mut self,
        new_items: Vec<TimelineItem>,
        changed_start: usize,
        changed_end: usize,
        clear_cache: bool,
    )
        ensures
            final(self)@ == step_new_items_view(
                old(self)@,
                new_items@,
                changed_start,
                changed_end,
                clear_cache,
            ),
    {
        if clear_cache {
            range_set_clear(&mut self.content_drawn_since_last_update);
            range_set_clear(&mut self.profile_drawn_since_last_update);
            self.fully_paginated = false;
        } else if changed_start < changed_end {
            range_set_remove(
                &mut self.content_drawn_since_last_update,
                changed_start,
                changed_end,
            );
            range_set_remove(
                &mut self.profile_drawn_since_last_update,
                changed_start,
                changed_end,
            );
        }
        self.items = new_items;
        proof {
            assert(self@ =~= step_new_items_view(
                old(self)@,
                new_items@,
                changed_start,
                changed_end,
                clear_cache,
            ));
        }
    }

    /// Applies one of the flag-only updates: pagination status, typing
    /// users, power levels, read receipts, target-found reporting, and the
    /// purely informational notices.
    #[verifier::rlimit(100)]
    #[verifier::spinoff_prover]
    fn apply_light_update(
        &mut self,
        update: TimelineUpdate,
        members: &Vec<(String, FrontendRoomMember)>,
        acc: &mut ProcessOutcome,
    )
        requires
            !(update is FirstUpdate),
            !(update is NewItems),
            !(update is RoomMembersListFetched),
        ensures
            consumer_model_of(final(self)@, members@, *final(acc)) == consumer_step(
                consumer_model_of(old(self)@, members@, *old(acc)),
                update,
            ),
    {
        match update {
            TimelineUpdate::NewUnreadMessagesCount(_count) => {}
            TimelineUpdate::TargetEventFound { target_event_id, index } => {
                let is_valid: bool = if index < self.items.len() {
                    match self.items[index].event_id {
                        Some(id) => id == target_event_id,
                        None => false,
                    }
                } else {
                    false
                };
                acc.clear_search_request = true;
                acc.target_found_valid = Some(is_valid);
                acc.should_continue_backwards_pagination = false;
            }
            TimelineUpdate::PaginationRunning(direction) => {
                match direction {
                    crate::timeline::PaginationDirection::Backwards => {
                        acc.done_loading = false;
                    }
                    crate::timeline::PaginationDirection::Forwards => {}
                }
            }
            TimelineUpdate::PaginationError { direction: _, message: _ } => {
                acc.done_loading = true;
            }
            TimelineUpdate::PaginationIdle { fully_paginated, direction } => {
                match direction {
                    crate::timeline::PaginationDirection::Backwards => {
                        self.fully_paginated = fully_paginated;
                        if fully_paginated {
                            acc.done_loading = true;
                        }
                    }
                    crate::timeline::PaginationDirection::Forwards => {}
                }
            }
            TimelineUpdate::EventDetailsFetched { event_id: _, success: _ } => {}
            TimelineUpdate::MessageEdited { event_id: _, success: _ } => {}
            TimelineUpdate::RoomMembersSynced => {}
            TimelineUpdate::MediaFetched => {}
            TimelineUpdate::TypingUsers { users } => {
                acc.typing_users = users;
            }
            TimelineUpdate::UserPowerLevels(p) => {
                self.user_power = p;
            }
            TimelineUpdate::OwnUserReadReceipt(r) => {
                self.latest_own_user_receipt = Some(r);
            }
            _ => {
                proof {
                    assert(false);
                }
            }
        }
    }
}

/// The fold state corresponding to the current view, member table and
/// accumulated flags.
pub open spec fn consumer_model_of(
    tl: TimelineUiView,
    members: Seq<(String, FrontendRoomMember)>,
    acc: ProcessOutcome,
) -> ConsumerModel {
    ConsumerModel {
        tl,
        members,
        done_loading: acc.done_loading,
        should_continue_backwards_pagination: acc.should_continue_backwards_pagination,
        clear_search_request: acc.clear_search_request,
        target_found_valid: acc.target_found_valid,
        typing_users: acc.typing_users@,
    }
}

/// Inserts the fetched member records into the member table, in order,
/// each replacing any previous record with the same user identifier.
fn merge_member_list(
    members: &mut Vec<(String, FrontendRoomMember)>,
    fetched: Vec<(String, FrontendRoomMember)>,
)
    requires
        members_wf(old(members)@),
    ensures
        members_wf(final(members)@),
        final(members)@ == merge_members(old(members)@, fetched@),
{
    let ghost members0: Seq<(String, FrontendRoomMember)> = members@;
    let ghost fetched0: Seq<(String, FrontendRoomMember)> = fetched@;
    let mut list: Vec<(String, FrontendRoomMember)> = fetched;
    while list.len() > 0
        invariant
            members_wf(members@),
            merge_members(members@, list@) == merge_members(members0, fetched0),
        decreases list.len(),
    {
        let ghost cur_members: Seq<(String, FrontendRoomMember)> = members@;
        let ghost list_pre: Seq<(String, FrontendRoomMember)> = list@;
        let pair: (String, FrontendRoomMember) = list.remove(0);
        proof {
            assert(list@ =~= list_pre.drop_first());
            assert(list_pre[0] == pair);
        }
        let uid_copy: String = pair.0.clone();
        match find_member(members, &uid_copy) {
            Some(i) => {
                proof {
                    assert(i as int == member_index(cur_members, pair.0@));
                }
                members.remove(i);
                members.insert(i, pair);
                proof {
                    assert(members@ =~= cur_members.update(i as int, list_pre[0]));
                }
            }
            None => {
                members.push(pair);
            }
        }
    }
}

/// Whether a saved view state exists for this room.
pub open spec fn states_have(s: Seq<(u64, TimelineUiState)>, room_id: u64) -> bool {
    exists|i: int| 0 <= i < s.len() && s[i].0 == room_id
}

/// The position of this room's saved view state.
pub open spec fn state_index(s: Seq<(u64, TimelineUiState)>, room_id: u64) -> int {
    choose|i: int| 0 <= i < s.len() && s[i].0 == room_id
}

/// Saved view states belong to distinct rooms.
pub open spec fn states_wf(s: Seq<(u64, TimelineUiState)>) -> bool {
    forall|i: int, j: int| 0 <= i < j < s.len() ==> s[i].0 != s[j].0
}

/// The saved view states of hidden rooms, one per room, taken out when a
/// room is shown again and stored back when it is hidden.
pub struct TimelineStates {
    /// Pairs of room identifier and saved state, with distinct rooms.
    pub entries: Vec<(u64, TimelineUiState)>,
}

impl TimelineStates {
    /// No view state has been saved yet.
    pub fn new() -> (r: TimelineStates)
        ensures
            r.entries@ == Seq::<(u64, TimelineUiState)>::empty(),
            states_wf(r.entries@),
    {
        TimelineStates { entries: Vec::new() }
    }

    /// Takes this room's saved view state out, if one was stored, so that
    /// exactly one view owns it at a time.
    #[verifier::loop_isolation(false)]
    pub fn take(&mut self, room_id: u64) -> (r: Option<TimelineUiState>)
        requires
            states_wf(old(self).entries@),
        ensures
            states_wf(final(self).entries@),
            states_have(old(self).entries@, room_id) ==> ({
                let i = state_index(old(self).entries@, room_id);
                r == Some(old(self).entries@[i].1) && final(self).entries@ == old(
                    self,
                ).entries@.remove(i)
            }),
            !states_have(old(self).entries@, room_id) ==> r is None && final(self).entries@
                == old(self).entries@,
    {
        let mut i: usize = 0;
        while i < self.entries.len()
            invariant
                i <= self.entries@.len(),
                self == old(self),
                forall|k: int| 0 <= k < i ==> self.entries@[k].0 != room_id,
            decreases self.entries@.len() - i,
        {
            let found: bool = self.entries[i].0 == room_id;
            if found {
                proof {
                    assert(i as int == state_index(self.entries@, room_id));
                }
                let pair: (u64, TimelineUiState) = self.entries.remove(i);
                return Some(pair.1);
            }
            i = i + 1;
        }
        None
    }

    /// Stores a room's view state back, replacing any state already saved
    /// for the same room.
    #[verifier::loop_isolation(false)]
    pub fn store(&mut self, room_id: u64, state: TimelineUiState)
        requires
            states_wf(old(self).entries@),
        ensures
            states_wf(final(self).entries@),
            states_have(old(self).entries@, room_id) ==> final(self).entries@ == old(
                self,
            ).entries@.update(state_index(old(self).entries@, room_id), (room_id, state)),
            !states_have(old(self).entries@, room_id) ==> final(self).entries@ == old(
                self,
            ).entries@.push((room_id, state)),
    {
        let mut i: usize = 0;
        while i < self.entries.len()
            invariant
                i <= self.entries@.len(),
                self == old(self),
                forall|k: int| 0 <= k < i ==> self.entries@[k].0 != room_id,
            decreases self.entries@.len() - i,
        {
            let found: bool = self.entries[i].0 == room_id;
            if found {
                proof {
                    assert(i as int == state_index(self.entries@, room_id));
                }
                self.entries.remove(i);
                self.entries.insert(i, (room_id, state));
                proof {
                    assert(self.entries@ =~= old(self).entries@.update(
                        i as int,
                        (room_id, state),
                    ));
                }
                return ;
            }
            i = i + 1;
        }
        self.entries.push((room_id, state));
    }
}

} // verus!
