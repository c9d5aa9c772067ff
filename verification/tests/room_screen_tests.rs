use matrix_svelte::range_set::range_set_insert;
use matrix_svelte::room_screen::{FrontendRoomMember, SavedState, TimelineStates, TimelineUiState};
use matrix_svelte::timeline::{
    PaginationDirection, ReadReceipt, TimelineItem, TimelineUpdate,
};

fn ev(id: u64) -> TimelineItem {
    TimelineItem { event_id: Some(id) }
}

fn member(name: &str, level: i64) -> FrontendRoomMember {
    FrontendRoomMember {
        name: name.to_owned(),
        max_power_level: level,
        display_name_ambiguous: false,
        is_ignored: false,
    }
}

fn fresh_view() -> (TimelineUiState, Vec<(String, FrontendRoomMember)>) {
    (TimelineUiState::new(3), Vec::new())
}

fn mark_drawn(state: &mut TimelineUiState, start: usize, end: usize) {
    range_set_insert(&mut state.content_drawn_since_last_update, start, end);
    range_set_insert(&mut state.profile_drawn_since_last_update, start, end);
}

#[test]
fn first_update_resets_the_view() {
    let (mut state, mut members) = fresh_view();
    mark_drawn(&mut state, 0, 4);
    state.fully_paginated = true;
    let out = state.process_updates(
        vec![TimelineUpdate::FirstUpdate { initial_items: vec![ev(1), ev(2)] }],
        &mut members,
    );
    assert!(out.done_loading);
    assert_eq!(state.items, vec![ev(1), ev(2)]);
    assert!(!state.fully_paginated);
    assert!(!state.is_content_drawn(1));
    assert!(!state.is_profile_drawn(1));
}

#[test]
fn ordinary_new_items_clear_exactly_the_changed_range() {
    let (mut state, mut members) = fresh_view();
    state.items = vec![ev(1), ev(2), ev(3), ev(4)];
    mark_drawn(&mut state, 0, 4);
    let out = state.process_updates(
        vec![TimelineUpdate::NewItems {
            new_items: vec![ev(1), ev(20), ev(3), ev(4)],
            changed_start: 1,
            changed_end: 2,
            is_append: false,
            clear_cache: false,
        }],
        &mut members,
    );
    assert!(out.done_loading);
    assert_eq!(state.items, vec![ev(1), ev(20), ev(3), ev(4)]);
    assert!(state.is_content_drawn(0));
    assert!(!state.is_content_drawn(1));
    assert!(state.is_content_drawn(2));
    assert!(state.is_profile_drawn(3));
    assert!(!state.is_profile_drawn(1));
}

#[test]
fn structural_new_items_clear_the_whole_cache() {
    let (mut state, mut members) = fresh_view();
    state.items = vec![ev(1)];
    state.fully_paginated = true;
    mark_drawn(&mut state, 0, 1);
    let out = state.process_updates(
        vec![TimelineUpdate::NewItems {
            new_items: vec![ev(0), ev(1)],
            changed_start: 0,
            changed_end: usize::MAX,
            is_append: false,
            clear_cache: true,
        }],
        &mut members,
    );
    assert!(out.done_loading);
    assert!(!state.fully_paginated);
    assert!(!state.is_content_drawn(0));
    assert!(!state.is_profile_drawn(0));
}

#[test]
fn emptied_timeline_asks_for_backwards_pagination() {
    let (mut state, mut members) = fresh_view();
    state.items = vec![ev(1)];
    let out = state.process_updates(
        vec![TimelineUpdate::NewItems {
            new_items: Vec::new(),
            changed_start: 0,
            changed_end: usize::MAX,
            is_append: false,
            clear_cache: true,
        }],
        &mut members,
    );
    assert!(out.should_continue_backwards_pagination);
}

#[test]
fn target_found_ends_the_search_and_checks_the_index() {
    let (mut state, mut members) = fresh_view();
    state.items = vec![ev(1), ev(2)];
    let out = state.process_updates(
        vec![TimelineUpdate::TargetEventFound { target_event_id: 2, index: 1 }],
        &mut members,
    );
    assert!(out.clear_search_request);
    assert_eq!(out.target_found_valid, Some(true));
    assert!(!out.should_continue_backwards_pagination);

    let out2 = state.process_updates(
        vec![TimelineUpdate::TargetEventFound { target_event_id: 2, index: 5 }],
        &mut members,
    );
    assert_eq!(out2.target_found_valid, Some(false));
}

#[test]
fn fully_paginated_idle_disables_further_backward_requests() {
    let (mut state, mut members) = fresh_view();
    let out = state.process_updates(
        vec![TimelineUpdate::PaginationIdle {
            fully_paginated: true,
            direction: PaginationDirection::Backwards,
        }],
        &mut members,
    );
    assert!(state.fully_paginated);
    assert!(out.done_loading);
}

#[test]
fn pagination_error_is_reported_without_terminating() {
    let (mut state, mut members) = fresh_view();
    let out = state.process_updates(
        vec![
            TimelineUpdate::PaginationRunning(PaginationDirection::Backwards),
            TimelineUpdate::PaginationError {
                direction: PaginationDirection::Backwards,
                message: "offline".to_owned(),
            },
        ],
        &mut members,
    );
    assert!(out.done_loading);
}

#[test]
fn member_list_merge_replaces_by_user_identifier() {
    let (mut state, mut members) = fresh_view();
    members.push(("@a".to_owned(), member("alice", 0)));
    state.process_updates(
        vec![TimelineUpdate::RoomMembersListFetched {
            members: vec![
                ("@a".to_owned(), member("alice2", 50)),
                ("@b".to_owned(), member("bob", 0)),
            ],
        }],
        &mut members,
    );
    assert_eq!(members.len(), 2);
    assert_eq!(members[0].0, "@a");
    assert_eq!(members[0].1.name, "alice2");
    assert_eq!(members[0].1.max_power_level, 50);
    assert_eq!(members[1].0, "@b");
}

#[test]
fn the_last_typing_users_list_wins() {
    let (mut state, mut members) = fresh_view();
    let out = state.process_updates(
        vec![
            TimelineUpdate::TypingUsers { users: vec!["a".to_owned()] },
            TimelineUpdate::TypingUsers { users: vec!["b".to_owned(), "c".to_owned()] },
        ],
        &mut members,
    );
    assert_eq!(out.typing_users, vec!["b".to_owned(), "c".to_owned()]);
}

#[test]
fn power_levels_and_read_receipts_are_recorded() {
    let (mut state, mut members) = fresh_view();
    assert!(state.user_power.can_send_message());
    state.process_updates(
        vec![
            TimelineUpdate::UserPowerLevels(matrix_svelte::power_levels::UserPowerLevels::empty()),
            TimelineUpdate::OwnUserReadReceipt(ReadReceipt { timestamp: Some(77) }),
        ],
        &mut members,
    );
    assert!(!state.user_power.can_send_message());
    assert_eq!(state.latest_own_user_receipt, Some(ReadReceipt { timestamp: Some(77) }));
}

#[test]
fn a_fresh_saved_state_has_nothing_recorded() {
    let s = SavedState::default();
    assert_eq!(s.first_index, None);
    assert_eq!(s.editing_event_id, None);
}

#[test]
fn saved_states_are_taken_out_and_stored_back() {
    let mut states = TimelineStates::new();
    assert!(states.take(1).is_none());

    let mut first = TimelineUiState::new(1);
    first.fully_paginated = true;
    states.store(1, first);
    states.store(2, TimelineUiState::new(2));

    let restored = states.take(1).expect("the saved state comes back");
    assert!(restored.fully_paginated);
    // Taking removes: only one view owns a room's state at a time.
    assert!(states.take(1).is_none());

    // Storing again replaces the old record for the same room.
    let mut second = TimelineUiState::new(2);
    second.last_scrolled_index = 5;
    states.store(2, second);
    assert_eq!(states.entries.len(), 1);
    assert_eq!(states.take(2).unwrap().last_scrolled_index, 5);
}
