use matrix_svelte::diffs::ListDiff;
use matrix_svelte::directory::{DirectoryAction, RoomDirectory};
use matrix_svelte::rooms::{RoomListServiceRoomInfo, RoomState};

fn room(id: u64) -> RoomListServiceRoomInfo {
    RoomListServiceRoomInfo { room_id: id, room_state: RoomState::Joined }
}

fn room_in(id: u64, state: RoomState) -> RoomListServiceRoomInfo {
    RoomListServiceRoomInfo { room_id: id, room_state: state }
}

fn directory_with(ids: &[u64]) -> RoomDirectory {
    let mut dir = RoomDirectory::new();
    let rooms: Vec<RoomListServiceRoomInfo> = ids.iter().map(|id| room(*id)).collect();
    let actions = dir.apply_room_list_batch(vec![ListDiff::Append { values: rooms }]);
    assert_eq!(actions.len(), ids.len());
    dir
}

#[test]
fn append_adds_each_room_in_order() {
    let mut dir = RoomDirectory::new();
    let actions = dir.apply_room_list_batch(vec![
        ListDiff::Append { values: vec![room(1), room(2)] },
    ]);
    assert_eq!(
        actions,
        vec![
            DirectoryAction::AddRoom { room: room(1) },
            DirectoryAction::AddRoom { room: room(2) },
        ]
    );
    assert_eq!(dir.all_known_rooms, vec![room(1), room(2)]);
}

#[test]
fn remove_then_insert_of_the_same_room_coalesces_into_one_update() {
    // Scenario: a mirror of ten rooms receives a removal at index three
    // immediately followed by an insertion of the same room (renamed, here
    // with a changed state) at the same index, in the same batch: the pair
    // becomes a single update operation and the mirror length stays ten.
    let ids: Vec<u64> = (0..10).collect();
    let mut dir = directory_with(&ids);
    let renamed = room_in(3, RoomState::Invited);
    let actions = dir.apply_room_list_batch(vec![
        ListDiff::Remove { index: 3 },
        ListDiff::Insert { index: 3, value: renamed },
    ]);
    assert_eq!(
        actions,
        vec![DirectoryAction::UpdateRoom { old_room: room(3), new_room: renamed }]
    );
    assert_eq!(dir.all_known_rooms.len(), 10);
    assert_eq!(dir.all_known_rooms[3], renamed);
}

#[test]
fn coalescing_matches_the_uncoalesced_mirror_state() {
    // The coalesced pair must produce the identical final mirror as the
    // naive remove-then-insert replay.
    let ids: Vec<u64> = (0..5).collect();
    let renamed = room_in(2, RoomState::Invited);

    let mut coalesced = directory_with(&ids);
    coalesced.apply_room_list_batch(vec![
        ListDiff::Remove { index: 2 },
        ListDiff::Insert { index: 2, value: renamed },
    ]);

    let mut naive = directory_with(&ids);
    naive.apply_room_list_batch(vec![ListDiff::Remove { index: 2 }]);
    naive.apply_room_list_batch(vec![ListDiff::Insert { index: 2, value: renamed }]);

    assert_eq!(coalesced.all_known_rooms, naive.all_known_rooms);
}

#[test]
fn removal_followed_by_a_different_room_does_not_coalesce() {
    let mut dir = directory_with(&[1, 2]);
    let actions = dir.apply_room_list_batch(vec![
        ListDiff::PopFront,
        ListDiff::PushFront { value: room(9) },
    ]);
    assert_eq!(
        actions,
        vec![
            DirectoryAction::RemoveRoom { room: room(1) },
            DirectoryAction::AddRoom { room: room(9) },
        ]
    );
    assert_eq!(dir.all_known_rooms, vec![room(9), room(2)]);
}

#[test]
fn pop_back_then_push_back_of_the_same_room_coalesces() {
    let mut dir = directory_with(&[1, 2]);
    let moved = room_in(2, RoomState::Invited);
    let actions = dir.apply_room_list_batch(vec![
        ListDiff::PopBack,
        ListDiff::PushBack { value: moved },
    ]);
    assert_eq!(
        actions,
        vec![DirectoryAction::UpdateRoom { old_room: room(2), new_room: moved }]
    );
    assert_eq!(dir.all_known_rooms, vec![room(1), moved]);
}

#[test]
fn set_updates_the_room_in_place() {
    let mut dir = directory_with(&[1, 2]);
    let changed = room_in(2, RoomState::Left);
    let actions = dir.apply_room_list_batch(vec![ListDiff::SetAt { index: 1, value: changed }]);
    assert_eq!(
        actions,
        vec![DirectoryAction::UpdateRoom { old_room: room(2), new_room: changed }]
    );
    assert_eq!(dir.all_known_rooms, vec![room(1), changed]);
}

#[test]
fn out_of_bounds_set_and_remove_are_reported_and_skipped() {
    let mut dir = directory_with(&[1]);
    let actions = dir.apply_room_list_batch(vec![
        ListDiff::SetAt { index: 5, value: room(9) },
        ListDiff::Remove { index: 5 },
        ListDiff::PushBack { value: room(2) },
    ]);
    assert_eq!(
        actions,
        vec![
            DirectoryAction::IndexOutOfBounds,
            DirectoryAction::IndexOutOfBounds,
            DirectoryAction::AddRoom { room: room(2) },
        ]
    );
    assert_eq!(dir.all_known_rooms, vec![room(1), room(2)]);
}

#[test]
fn truncate_removes_each_room_from_the_back() {
    let mut dir = directory_with(&[1, 2, 3, 4]);
    let actions = dir.apply_room_list_batch(vec![ListDiff::Truncate { length: 2 }]);
    assert_eq!(
        actions,
        vec![
            DirectoryAction::RemoveRoom { room: room(4) },
            DirectoryAction::RemoveRoom { room: room(3) },
        ]
    );
    assert_eq!(dir.all_known_rooms, vec![room(1), room(2)]);
}

#[test]
fn reset_tears_every_room_down_then_adds_the_new_ones() {
    let mut dir = directory_with(&[1, 2]);
    let actions = dir.apply_room_list_batch(vec![
        ListDiff::Reset { values: vec![room(8), room(9)] },
    ]);
    assert_eq!(
        actions,
        vec![
            DirectoryAction::RemoveRoom { room: room(2) },
            DirectoryAction::RemoveRoom { room: room(1) },
            DirectoryAction::ClearRooms,
            DirectoryAction::AddRoom { room: room(8) },
            DirectoryAction::AddRoom { room: room(9) },
        ]
    );
    assert_eq!(dir.all_known_rooms, vec![room(8), room(9)]);
}

#[test]
fn clear_empties_the_directory() {
    let mut dir = directory_with(&[1, 2]);
    let actions = dir.apply_room_list_batch(vec![ListDiff::Clear]);
    assert_eq!(actions, vec![DirectoryAction::ClearRooms]);
    assert_eq!(dir.all_known_rooms, Vec::<RoomListServiceRoomInfo>::new());
}

#[test]
fn directory_mirror_matches_a_reference_list() {
    // Oracle test: the directory's mirror must match a plain list that the
    // same diffs are applied to by hand.
    let mut dir = RoomDirectory::new();
    dir.apply_room_list_batch(vec![
        ListDiff::Append { values: vec![room(1), room(2), room(3)] },
        ListDiff::PushFront { value: room(0) },
        ListDiff::Remove { index: 2 },
        ListDiff::PushBack { value: room(4) },
    ]);
    assert_eq!(dir.all_known_rooms, vec![room(0), room(1), room(3), room(4)]);
}
