use matrix_svelte::diffs::ListDiff;
use matrix_svelte::directory::{DirectoryAction, RoomDirectory};
use matrix_svelte::invited_room::{InviteState, InvitedRoomInfo};
use matrix_svelte::rooms::{
    room_update_messages, RoomDetails, RoomListServiceRoomInfo, RoomState, UnreadMessageCount,
};
use matrix_svelte::rooms_list::{
    enqueue_rooms_list_update, loading_state_update, JoinedRoomInfo, RoomListLoadingState,
    RoomsCollectionStatus, RoomsList, RoomsListUpdate,
};
use matrix_svelte::update_queue::RoomsUpdateQueue;
use matrix_svelte::signals::init_broadcaster;

fn joined_info(id: u64, unread: u64) -> JoinedRoomInfo {
    JoinedRoomInfo {
        room_id: id,
        room_name: Some(format!("room-{id}")),
        num_unread_messages: unread,
        num_unread_mentions: 0,
        canonical_alias: None,
        alt_aliases: Vec::new(),
        tags: Vec::new(),
        latest: None,
        avatar: None,
        has_been_paginated: false,
        is_selected: false,
        is_direct: false,
    }
}

fn invited_info(id: u64) -> InvitedRoomInfo {
    InvitedRoomInfo {
        room_id: id,
        room_name: None,
        canonical_alias: None,
        alt_aliases: Vec::new(),
        room_avatar: None,
        inviter_info: None,
        latest: None,
        invite_state: InviteState::WaitingOnUserInput,
        is_selected: false,
        is_direct: false,
    }
}

fn status_message(list: &RoomsList) -> String {
    match &list.status {
        RoomsCollectionStatus::NotLoaded(m) => m.clone(),
        RoomsCollectionStatus::Loading(m) => m.clone(),
        RoomsCollectionStatus::Loaded(m) => m.clone(),
        RoomsCollectionStatus::Error(m) => m.clone(),
    }
}

#[test]
fn one_room_added_then_one_unread_change() {
    // Scenario: the directory receives one appended room, then a set at
    // index zero with an unread count change from zero to five. The
    // reconciler asks for exactly one room addition and one in-place
    // update; diffing the details emits exactly one unread-count update
    // with the new value five, and the rooms list ends up showing it.
    let backend_room = RoomListServiceRoomInfo { room_id: 1, room_state: RoomState::Joined };
    let mut dir = RoomDirectory::new();
    let first = dir.apply_room_list_batch(vec![
        ListDiff::Append { values: vec![backend_room] },
    ]);
    assert_eq!(first, vec![DirectoryAction::AddRoom { room: backend_room }]);

    let second = dir.apply_room_list_batch(vec![
        ListDiff::SetAt { index: 0, value: backend_room },
    ]);
    assert_eq!(
        second,
        vec![DirectoryAction::UpdateRoom { old_room: backend_room, new_room: backend_room }]
    );

    let old_details = RoomDetails {
        room_name: Some("room-1".to_owned()),
        tags: Vec::new(),
        num_unread_messages: 0,
        num_unread_mentions: 0,
    };
    let new_details = RoomDetails {
        room_name: Some("room-1".to_owned()),
        tags: Vec::new(),
        num_unread_messages: 5,
        num_unread_mentions: 0,
    };
    let messages = room_update_messages(1, &old_details, new_details);
    assert_eq!(messages.len(), 1);
    match &messages[0] {
        RoomsListUpdate::UpdateNumUnreadMessages { room_id, count, unread_mentions } => {
            assert_eq!(*room_id, 1);
            assert!(matches!(count, UnreadMessageCount::Known(5)));
            assert_eq!(*unread_mentions, 0);
        }
        _ => panic!("expected exactly the unread-count update"),
    }

    let broadcaster = init_broadcaster(16);
    let mut queue = RoomsUpdateQueue::new();
    enqueue_rooms_list_update(
        &mut queue,
        &broadcaster,
        RoomsListUpdate::AddJoinedRoom(joined_info(1, 0)),
    );
    for message in messages {
        enqueue_rooms_list_update(&mut queue, &broadcaster, message);
    }
    let mut list = RoomsList::new();
    assert!(list.handle_rooms_list_updates(&mut queue));
    assert_eq!(list.all_joined_rooms.len(), 1);
    assert_eq!(list.all_joined_rooms[0].num_unread_messages, 5);
    assert_eq!(list.displayed_joined_rooms, vec![1]);
}

#[test]
fn rooms_count_status_reports_the_exact_counts() {
    let mut list = RoomsList::new();
    list.apply_update(RoomsListUpdate::LoadedRooms { max_rooms: Some(2) });
    assert_eq!(status_message(&list), "Loaded 0 of 2 total rooms.");
    assert!(matches!(list.status, RoomsCollectionStatus::Loading(_)));

    list.apply_update(RoomsListUpdate::AddJoinedRoom(joined_info(1, 0)));
    assert_eq!(status_message(&list), "Loaded 1 of 2 total rooms.");
    assert!(matches!(list.status, RoomsCollectionStatus::Loading(_)));

    list.apply_update(RoomsListUpdate::AddJoinedRoom(joined_info(2, 0)));
    assert_eq!(status_message(&list), "Loaded 2 of 2 total rooms.");
    assert!(matches!(list.status, RoomsCollectionStatus::Loaded(_)));
}

#[test]
fn rooms_count_status_without_a_known_maximum() {
    let mut list = RoomsList::new();
    list.apply_update(RoomsListUpdate::AddJoinedRoom(joined_info(1, 0)));
    assert_eq!(status_message(&list), "Loaded 1 rooms.");
    assert!(matches!(list.status, RoomsCollectionStatus::Loaded(_)));
}

#[test]
fn accepting_an_invite_moves_the_room_to_the_joined_collections() {
    let mut list = RoomsList::new();
    list.apply_update(RoomsListUpdate::AddInvitedRoom(invited_info(5)));
    assert_eq!(list.invited_rooms.len(), 1);
    assert_eq!(list.displayed_invited_rooms, vec![5]);

    list.apply_update(RoomsListUpdate::AddJoinedRoom(joined_info(5, 0)));
    assert_eq!(list.invited_rooms.len(), 0);
    assert_eq!(list.displayed_invited_rooms, Vec::<u64>::new());
    assert_eq!(list.all_joined_rooms.len(), 1);
    assert_eq!(list.displayed_joined_rooms, vec![5]);
}

#[test]
fn an_invite_for_an_already_joined_room_is_rejected() {
    let mut list = RoomsList::new();
    list.apply_update(RoomsListUpdate::AddJoinedRoom(joined_info(5, 0)));
    list.apply_update(RoomsListUpdate::AddInvitedRoom(invited_info(5)));
    assert_eq!(list.invited_rooms.len(), 0);
    assert_eq!(list.all_joined_rooms.len(), 1);
}

#[test]
fn latest_event_and_name_and_tags_updates_change_only_their_room() {
    let mut list = RoomsList::new();
    list.apply_update(RoomsListUpdate::AddJoinedRoom(joined_info(1, 0)));
    list.apply_update(RoomsListUpdate::AddJoinedRoom(joined_info(2, 0)));

    list.apply_update(RoomsListUpdate::UpdateLatestEvent {
        room_id: 1,
        timestamp: 123,
        latest_message_text: "hello".to_owned(),
    });
    list.apply_update(RoomsListUpdate::UpdateRoomName {
        room_id: 2,
        new_room_name: "renamed".to_owned(),
    });
    list.apply_update(RoomsListUpdate::Tags { room_id: 2, new_tags: vec!["fav".to_owned()] });

    assert_eq!(list.all_joined_rooms[0].latest, Some((123, "hello".to_owned())));
    assert_eq!(list.all_joined_rooms[0].room_name, Some("room-1".to_owned()));
    assert_eq!(list.all_joined_rooms[1].room_name, Some("renamed".to_owned()));
    assert_eq!(list.all_joined_rooms[1].tags, vec!["fav".to_owned()]);
    assert_eq!(list.all_joined_rooms[1].latest, None);
}

#[test]
fn updates_for_unknown_rooms_change_nothing() {
    let mut list = RoomsList::new();
    list.apply_update(RoomsListUpdate::UpdateLatestEvent {
        room_id: 9,
        timestamp: 1,
        latest_message_text: "x".to_owned(),
    });
    list.apply_update(RoomsListUpdate::UpdateNumUnreadMessages {
        room_id: 9,
        count: UnreadMessageCount::Known(3),
        unread_mentions: 1,
    });
    assert_eq!(list.all_joined_rooms.len(), 0);
}

#[test]
fn unknown_unread_count_resets_both_counters() {
    let mut list = RoomsList::new();
    list.apply_update(RoomsListUpdate::AddJoinedRoom(joined_info(1, 7)));
    list.apply_update(RoomsListUpdate::UpdateNumUnreadMessages {
        room_id: 1,
        count: UnreadMessageCount::Unknown,
        unread_mentions: 9,
    });
    assert_eq!(list.all_joined_rooms[0].num_unread_messages, 0);
    assert_eq!(list.all_joined_rooms[0].num_unread_mentions, 0);
}

#[test]
fn remove_room_update_takes_the_room_out_of_the_displayed_list() {
    let mut list = RoomsList::new();
    list.apply_update(RoomsListUpdate::AddJoinedRoom(joined_info(1, 0)));
    list.apply_update(RoomsListUpdate::AddJoinedRoom(joined_info(2, 0)));
    list.apply_update(RoomsListUpdate::RemoveRoom { room_id: 1, new_state: RoomState::Left });
    assert_eq!(list.all_joined_rooms.len(), 1);
    assert_eq!(list.all_joined_rooms[0].room_id, 2);
    assert_eq!(list.displayed_joined_rooms, vec![2]);
}

#[test]
fn clear_rooms_update_empties_every_collection() {
    let mut list = RoomsList::new();
    list.apply_update(RoomsListUpdate::AddJoinedRoom(joined_info(1, 0)));
    list.apply_update(RoomsListUpdate::AddInvitedRoom(invited_info(2)));
    list.apply_update(RoomsListUpdate::ClearRooms);
    assert_eq!(list.all_joined_rooms.len(), 0);
    assert_eq!(list.invited_rooms.len(), 0);
    assert_eq!(list.displayed_joined_rooms.len(), 0);
    assert_eq!(list.displayed_invited_rooms.len(), 0);
}

#[test]
fn drain_applies_updates_in_arrival_order() {
    let broadcaster = init_broadcaster(16);
    let mut queue = RoomsUpdateQueue::new();
    enqueue_rooms_list_update(
        &mut queue,
        &broadcaster,
        RoomsListUpdate::AddJoinedRoom(joined_info(1, 0)),
    );
    enqueue_rooms_list_update(
        &mut queue,
        &broadcaster,
        RoomsListUpdate::UpdateRoomName { room_id: 1, new_room_name: "late".to_owned() },
    );
    let mut list = RoomsList::new();
    assert!(list.handle_rooms_list_updates(&mut queue));
    assert_eq!(list.all_joined_rooms[0].room_name, Some("late".to_owned()));
    // The queue is drained: a second cycle reports nothing to do.
    assert!(!list.handle_rooms_list_updates(&mut queue));
}

#[test]
fn loading_state_maps_to_the_matching_update() {
    assert!(matches!(
        loading_state_update(RoomListLoadingState::NotLoaded),
        RoomsListUpdate::NotLoaded
    ));
    match loading_state_update(RoomListLoadingState::Loaded { maximum_number_of_rooms: Some(3) }) {
        RoomsListUpdate::LoadedRooms { max_rooms } => assert_eq!(max_rooms, Some(3)),
        _ => panic!("expected a loaded-rooms update"),
    }
}

#[test]
fn status_update_replaces_the_label() {
    let mut list = RoomsList::new();
    list.apply_update(RoomsListUpdate::Status {
        status: RoomsCollectionStatus::Error("offline".to_owned()),
    });
    assert_eq!(status_message(&list), "offline");
    assert!(matches!(list.status, RoomsCollectionStatus::Error(_)));
}

#[test]
fn not_loaded_update_reports_waiting_for_the_homeserver() {
    let mut list = RoomsList::new();
    list.apply_update(RoomsListUpdate::NotLoaded);
    assert_eq!(status_message(&list), "Loading rooms (waiting for homeserver)...");
}
