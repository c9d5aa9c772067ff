use matrix_svelte::diffs::ListDiff;
use matrix_svelte::power_levels::RoomPowerLevelsSnapshot;
use matrix_svelte::rooms_list::RoomsListUpdate;
use matrix_svelte::timeline::{update_latest_event, LatestEventContent, LatestEventDetails};
use matrix_svelte::update_queue::RoomsUpdateQueue;
use matrix_svelte::timeline::{
    pagination_result_update, BackwardsPaginateUntilEventRequest, PaginationDirection,
    SearchOutcome, TimelineEngine, TimelineItem, TimelineUpdate, SEARCH_PAGINATION_BATCH_SIZE,
};

fn ev(id: u64) -> TimelineItem {
    TimelineItem { event_id: Some(id) }
}

fn sep() -> TimelineItem {
    TimelineItem { event_id: None }
}

fn engine_with(items: Vec<TimelineItem>) -> TimelineEngine {
    let (engine, first) = TimelineEngine::new(7, items.clone());
    match first {
        TimelineUpdate::FirstUpdate { initial_items } => assert_eq!(initial_items, items),
        _ => panic!("expected the first-load update"),
    }
    engine
}

#[test]
fn empty_batch_emits_nothing() {
    let mut engine = engine_with(vec![ev(1)]);
    let out = engine.apply_diff_batch(Vec::new());
    assert_eq!(out.updates.len(), 0);
    assert!(!out.reobtain_latest_event);
    assert_eq!(engine.items, vec![ev(1)]);
}

#[test]
fn append_batch_emits_one_consolidated_update() {
    let mut engine = engine_with(vec![ev(1), ev(2)]);
    let out = engine.apply_diff_batch(vec![
        ListDiff::Append { values: vec![ev(3)] },
        ListDiff::PushBack { value: ev(4) },
    ]);
    assert!(out.reobtain_latest_event);
    assert_eq!(out.updates.len(), 1);
    match &out.updates[0] {
        TimelineUpdate::NewItems { new_items, changed_start, changed_end, is_append, clear_cache } => {
            assert_eq!(new_items, &vec![ev(1), ev(2), ev(3), ev(4)]);
            assert_eq!(*changed_start, 2);
            assert_eq!(*changed_end, 4);
            assert!(*is_append);
            assert!(!*clear_cache);
        }
        _ => panic!("expected a new-items update"),
    }
}

#[test]
fn clear_cache_is_set_by_every_front_structural_diff() {
    // Clear, Reset, truncate to zero, and any front-position push, pop,
    // insert or remove must set the flag.
    let front_diffs: Vec<ListDiff<TimelineItem>> = vec![
        ListDiff::Clear,
        ListDiff::Reset { values: vec![ev(1)] },
        ListDiff::Truncate { length: 0 },
        ListDiff::PushFront { value: ev(9) },
        ListDiff::PopFront,
        ListDiff::Insert { index: 0, value: ev(9) },
        ListDiff::Remove { index: 0 },
    ];
    for d in front_diffs {
        let mut engine = engine_with(vec![ev(1), ev(2), ev(3)]);
        let out = engine.apply_diff_batch(vec![d]);
        match &out.updates[0] {
            TimelineUpdate::NewItems { clear_cache, .. } => assert!(*clear_cache),
            _ => panic!("expected a new-items update"),
        }
    }
}

#[test]
fn clear_cache_is_not_set_by_tail_only_changes() {
    let tail_diffs: Vec<ListDiff<TimelineItem>> = vec![
        ListDiff::Append { values: vec![ev(9)] },
        ListDiff::PushBack { value: ev(9) },
        ListDiff::PopBack,
        ListDiff::Insert { index: 2, value: ev(9) },
        ListDiff::SetAt { index: 1, value: ev(9) },
        ListDiff::Remove { index: 2 },
        ListDiff::Truncate { length: 2 },
    ];
    for d in tail_diffs {
        let mut engine = engine_with(vec![ev(1), ev(2), ev(3)]);
        let out = engine.apply_diff_batch(vec![d]);
        match &out.updates[0] {
            TimelineUpdate::NewItems { clear_cache, .. } => assert!(!*clear_cache),
            _ => panic!("expected a new-items update"),
        }
    }
}

#[test]
fn set_diff_reports_its_exact_changed_range() {
    let mut engine = engine_with(vec![ev(1), ev(2), ev(3)]);
    let out = engine.apply_diff_batch(vec![ListDiff::SetAt { index: 1, value: ev(20) }]);
    match &out.updates[0] {
        TimelineUpdate::NewItems { changed_start, changed_end, is_append, .. } => {
            assert_eq!(*changed_start, 1);
            assert_eq!(*changed_end, 2);
            assert!(!*is_append);
        }
        _ => panic!("expected a new-items update"),
    }
    assert_eq!(engine.items, vec![ev(1), ev(20), ev(3)]);
}

#[test]
fn immediate_search_hit_issues_no_pagination() {
    // Scenario: the timeline receives one prepended event, then a search
    // request for it with resume index 0, recorded length 1, current
    // length 1: the target is reported at index 0 at once.
    let mut engine = engine_with(Vec::new());
    engine.apply_diff_batch(vec![ListDiff::PushFront { value: ev(1) }]);
    assert_eq!(engine.items.len(), 1);
    let request = BackwardsPaginateUntilEventRequest {
        room_id: 7,
        target_event_id: 1,
        starting_index: 0,
        current_tl_len: 1,
    };
    match engine.handle_search_request(Some(&request)) {
        SearchOutcome::Found { target_event_id, index } => {
            assert_eq!(target_event_id, 1);
            assert_eq!(index, 0);
        }
        _ => panic!("expected an immediate hit without pagination"),
    }
    assert_eq!(engine.target_event_id, None);
}

#[test]
fn stale_resume_index_falls_back_to_scanning_from_the_end() {
    // The mirror length no longer matches the request's recorded length,
    // so the stale resume index is discarded and the whole mirror is
    // scanned from its end, never out of bounds.
    let mut engine = engine_with(vec![ev(5), ev(6), ev(7)]);
    let request = BackwardsPaginateUntilEventRequest {
        room_id: 7,
        target_event_id: 7,
        starting_index: 0,
        current_tl_len: 99,
    };
    match engine.handle_search_request(Some(&request)) {
        SearchOutcome::Found { target_event_id, index } => {
            assert_eq!(target_event_id, 7);
            assert_eq!(index, 2);
        }
        _ => panic!("expected the fallback scan to find the target"),
    }
}

#[test]
fn search_miss_keeps_the_target_and_paginates_backwards() {
    let mut engine = engine_with(vec![ev(5), sep(), ev(6)]);
    let request = BackwardsPaginateUntilEventRequest {
        room_id: 7,
        target_event_id: 42,
        starting_index: 2,
        current_tl_len: 3,
    };
    match engine.handle_search_request(Some(&request)) {
        SearchOutcome::PaginateBackwards { num_events } => {
            assert_eq!(num_events, SEARCH_PAGINATION_BATCH_SIZE);
        }
        _ => panic!("expected a backwards pagination request"),
    }
    assert_eq!(engine.target_event_id, Some(42));
}

#[test]
fn virtual_items_are_never_search_targets() {
    let mut engine = engine_with(vec![sep(), sep()]);
    let request = BackwardsPaginateUntilEventRequest {
        room_id: 7,
        target_event_id: 1,
        starting_index: 1,
        current_tl_len: 2,
    };
    assert!(matches!(
        engine.handle_search_request(Some(&request)),
        SearchOutcome::PaginateBackwards { .. }
    ));
}

#[test]
fn empty_request_clears_the_search_slot() {
    let mut engine = engine_with(vec![ev(1)]);
    engine.target_event_id = Some(9);
    assert!(matches!(engine.handle_search_request(None), SearchOutcome::Cleared));
    assert_eq!(engine.target_event_id, None);
}

#[test]
fn repeated_request_for_the_same_target_changes_nothing() {
    let mut engine = engine_with(vec![ev(1)]);
    engine.target_event_id = Some(9);
    let request = BackwardsPaginateUntilEventRequest {
        room_id: 7,
        target_event_id: 9,
        starting_index: 1,
        current_tl_len: 1,
    };
    assert!(matches!(engine.handle_search_request(Some(&request)), SearchOutcome::Unchanged));
    assert_eq!(engine.target_event_id, Some(9));
}

#[test]
fn new_items_update_precedes_target_found_for_the_same_batch() {
    // While a search is pending, a batch that prepends the sought event
    // yields the consolidated new-items update first and the target-found
    // update strictly after it.
    let mut engine = engine_with(vec![ev(5)]);
    let request = BackwardsPaginateUntilEventRequest {
        room_id: 7,
        target_event_id: 42,
        starting_index: 1,
        current_tl_len: 1,
    };
    assert!(matches!(
        engine.handle_search_request(Some(&request)),
        SearchOutcome::PaginateBackwards { .. }
    ));
    let out = engine.apply_diff_batch(vec![
        ListDiff::PushFront { value: ev(42) },
        ListDiff::PushFront { value: ev(41) },
    ]);
    assert_eq!(out.updates.len(), 2);
    assert!(matches!(out.updates[0], TimelineUpdate::NewItems { .. }));
    match &out.updates[1] {
        TimelineUpdate::TargetEventFound { target_event_id, index } => {
            assert_eq!(*target_event_id, 42);
            // The later push-front moved the found event from index 0 to 1.
            assert_eq!(*index, 1);
        }
        _ => panic!("expected the target-found update after the new items"),
    }
    assert_eq!(engine.target_event_id, None);
    assert_eq!(engine.found_target, None);
}

#[test]
fn tracked_index_follows_front_edits() {
    let mut engine = engine_with(vec![ev(5)]);
    let request = BackwardsPaginateUntilEventRequest {
        room_id: 7,
        target_event_id: 42,
        starting_index: 1,
        current_tl_len: 1,
    };
    engine.handle_search_request(Some(&request));
    // The target arrives, then an unrelated removal in front of it shifts
    // the tracked position back down.
    let out = engine.apply_diff_batch(vec![
        ListDiff::PushFront { value: ev(42) },
        ListDiff::PushFront { value: ev(41) },
        ListDiff::Remove { index: 0 },
    ]);
    match &out.updates[1] {
        TimelineUpdate::TargetEventFound { index, .. } => assert_eq!(*index, 0),
        _ => panic!("expected the target-found update"),
    }
}

#[test]
fn pagination_result_maps_to_idle_or_error() {
    let ok = pagination_result_update(PaginationDirection::Backwards, Ok(true));
    match ok {
        TimelineUpdate::PaginationIdle { fully_paginated, direction } => {
            assert!(fully_paginated);
            assert_eq!(direction, PaginationDirection::Backwards);
        }
        _ => panic!("expected an idle update"),
    }
    let err = pagination_result_update(
        PaginationDirection::Backwards,
        Err("no connection".to_owned()),
    );
    match err {
        TimelineUpdate::PaginationError { direction, message } => {
            assert_eq!(direction, PaginationDirection::Backwards);
            assert_eq!(message, "no connection");
        }
        _ => panic!("expected an error update"),
    }
}

#[test]
fn pagination_direction_names() {
    assert_eq!(PaginationDirection::Forwards.as_str(), "forwards");
    assert_eq!(PaginationDirection::Backwards.as_str(), "backwards");
}

#[test]
fn latest_event_updates_the_room_preview_last() {
    let mut queue = RoomsUpdateQueue::new();
    let outcome = update_latest_event(
        4,
        LatestEventDetails {
            timestamp: 99,
            latest_message_text: "renamed the room".to_owned(),
            content: LatestEventContent::RoomNameChange { new_name: "den".to_owned() },
        },
        &mut queue,
    );
    assert!(!outcome.room_avatar_changed);
    assert!(!outcome.request_power_levels);
    assert!(outcome.timeline_updates.is_empty());
    match queue.pop() {
        Some(RoomsListUpdate::UpdateRoomName { room_id, new_room_name }) => {
            assert_eq!(room_id, 4);
            assert_eq!(new_room_name, "den");
        }
        _ => panic!("expected the room-name update first"),
    }
    match queue.pop() {
        Some(RoomsListUpdate::UpdateLatestEvent { room_id, timestamp, latest_message_text }) => {
            assert_eq!(room_id, 4);
            assert_eq!(timestamp, 99);
            assert_eq!(latest_message_text, "renamed the room");
        }
        _ => panic!("expected the latest-event update last"),
    }
    assert!(queue.pop().is_none());
}

#[test]
fn latest_event_variants_set_their_flags() {
    let mut queue = RoomsUpdateQueue::new();
    let avatar = update_latest_event(
        4,
        LatestEventDetails {
            timestamp: 1,
            latest_message_text: String::new(),
            content: LatestEventContent::RoomAvatarChange,
        },
        &mut queue,
    );
    assert!(avatar.room_avatar_changed);

    let joined = update_latest_event(
        4,
        LatestEventDetails {
            timestamp: 2,
            latest_message_text: String::new(),
            content: LatestEventContent::MembershipChange { is_join: true, user_is_self: true },
        },
        &mut queue,
    );
    assert!(joined.request_power_levels);

    let other_user = update_latest_event(
        4,
        LatestEventDetails {
            timestamp: 3,
            latest_message_text: String::new(),
            content: LatestEventContent::MembershipChange { is_join: true, user_is_self: false },
        },
        &mut queue,
    );
    assert!(!other_user.request_power_levels);

    let levels = update_latest_event(
        4,
        LatestEventDetails {
            timestamp: 4,
            latest_message_text: String::new(),
            content: LatestEventContent::PowerLevelsChange(RoomPowerLevelsSnapshot {
                user_power: 0,
                ban: 50,
                invite: 0,
                kick: 50,
                redact: 50,
                notifications_room: 50,
                location: 0,
                message: 0,
                reaction: 0,
                room_message: 0,
                room_redaction: 0,
                sticker: 0,
                room_pinned_events: 50,
            }),
        },
        &mut queue,
    );
    assert_eq!(levels.timeline_updates.len(), 1);
    match &levels.timeline_updates[0] {
        TimelineUpdate::UserPowerLevels(p) => {
            assert!(!p.can_ban());
            assert!(p.can_send_message());
        }
        _ => panic!("expected the power-level update"),
    }
}
