use matrix_svelte::rooms::{
    add_joined_room_and_announce, plan_room_update, register_tombstoned_room, remove_room,
    JoinedRoomsRegistry, RoomListServiceRoomInfo, RoomState, RoomUpdatePlan, TombstonedRooms,
};
use matrix_svelte::rooms_list::{JoinedRoomInfo, RoomsListUpdate};
use matrix_svelte::signals::init_broadcaster;
use matrix_svelte::update_queue::RoomsUpdateQueue;

fn plain_joined_info(id: u64) -> JoinedRoomInfo {
    JoinedRoomInfo {
        room_id: id,
        room_name: None,
        num_unread_messages: 0,
        num_unread_mentions: 0,
        canonical_alias: None,
        alt_aliases: Vec::new(),
        tags: Vec::new(),
        latest: None,
        avatar: None,
        has_been_paginated: false,
        is_selected: false,
        is_direct: false,
    }
}

#[test]
fn a_tombstone_for_an_unknown_replacement_is_kept_pending() {
    let mut registry = JoinedRoomsRegistry::new();
    let mut tombstoned = TombstonedRooms::new();
    register_tombstoned_room(&mut registry, &mut tombstoned, 10, 20);
    assert_eq!(tombstoned.entries, vec![(20, 10)]);
    assert_eq!(registry.rooms.len(), 0);
}

#[test]
fn a_tombstone_for_a_known_replacement_marks_it_immediately() {
    let mut registry = JoinedRoomsRegistry::new();
    let mut tombstoned = TombstonedRooms::new();
    let broadcaster = init_broadcaster(16);
    let mut queue = RoomsUpdateQueue::new();
    add_joined_room_and_announce(
        &mut registry,
        &mut tombstoned,
        &mut queue,
        &broadcaster,
        plain_joined_info(20),
    );
    register_tombstoned_room(&mut registry, &mut tombstoned, 10, 20);
    assert_eq!(registry.rooms[0].replaces_tombstoned_room, Some(10));
    assert_eq!(tombstoned.entries.len(), 0);
}

#[test]
fn adding_the_replacement_room_resolves_the_pending_tombstone() {
    let mut registry = JoinedRoomsRegistry::new();
    let mut tombstoned = TombstonedRooms::new();
    let broadcaster = init_broadcaster(16);
    let mut queue = RoomsUpdateQueue::new();
    register_tombstoned_room(&mut registry, &mut tombstoned, 10, 20);
    let replaces = add_joined_room_and_announce(
        &mut registry,
        &mut tombstoned,
        &mut queue,
        &broadcaster,
        plain_joined_info(20),
    );
    assert_eq!(replaces, Some(10));
    assert_eq!(tombstoned.entries.len(), 0);
    assert_eq!(registry.rooms[0].replaces_tombstoned_room, Some(10));
    // The engine's registry entry exists before the room-added update.
    let mut list = matrix_svelte::rooms_list::RoomsList::new();
    assert!(list.handle_rooms_list_updates(&mut queue));
    assert_eq!(list.all_joined_rooms.len(), 1);
}

#[test]
fn timeline_endpoints_can_be_taken_only_once() {
    let mut registry = JoinedRoomsRegistry::new();
    let mut tombstoned = TombstonedRooms::new();
    let broadcaster = init_broadcaster(16);
    let mut queue = RoomsUpdateQueue::new();
    add_joined_room_and_announce(
        &mut registry,
        &mut tombstoned,
        &mut queue,
        &broadcaster,
        plain_joined_info(1),
    );
    assert!(registry.take_timeline_endpoints(1));
    assert!(!registry.take_timeline_endpoints(1));
    assert!(!registry.take_timeline_endpoints(2));
}

#[test]
fn removing_a_room_reinstates_its_tombstone_linkage() {
    let mut registry = JoinedRoomsRegistry::new();
    let mut tombstoned = TombstonedRooms::new();
    let broadcaster = init_broadcaster(16);
    let mut queue = RoomsUpdateQueue::new();
    register_tombstoned_room(&mut registry, &mut tombstoned, 10, 20);
    add_joined_room_and_announce(
        &mut registry,
        &mut tombstoned,
        &mut queue,
        &broadcaster,
        plain_joined_info(20),
    );
    remove_room(
        &mut registry,
        &mut tombstoned,
        &mut queue,
        &broadcaster,
        RoomListServiceRoomInfo { room_id: 20, room_state: RoomState::Left },
    );
    assert_eq!(registry.rooms.len(), 0);
    assert_eq!(tombstoned.entries, vec![(20, 10)]);
    // The queue saw the addition and then the removal, in that order.
    let mut first: Option<RoomsListUpdate> = queue.pop();
    assert!(matches!(first.take(), Some(RoomsListUpdate::AddJoinedRoom(_))));
    match queue.pop() {
        Some(RoomsListUpdate::RemoveRoom { room_id, new_state }) => {
            assert_eq!(room_id, 20);
            assert_eq!(new_state, RoomState::Left);
        }
        _ => panic!("expected the removal update"),
    }
}

#[test]
fn room_update_plans_follow_the_state_transition() {
    assert_eq!(
        plan_room_update(RoomState::Joined, RoomState::Joined),
        RoomUpdatePlan::InPlace
    );
    assert_eq!(plan_room_update(RoomState::Joined, RoomState::Left), RoomUpdatePlan::Remove);
    assert_eq!(plan_room_update(RoomState::Joined, RoomState::Banned), RoomUpdatePlan::Remove);
    assert_eq!(plan_room_update(RoomState::Invited, RoomState::Joined), RoomUpdatePlan::Add);
    assert_eq!(plan_room_update(RoomState::Left, RoomState::Invited), RoomUpdatePlan::Add);
    assert_eq!(plan_room_update(RoomState::Joined, RoomState::Knocked), RoomUpdatePlan::Ignore);
}
