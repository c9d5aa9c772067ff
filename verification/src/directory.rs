//! The room directory reconciler.
//!
//! It consumes ordered diff batches over the backend's master room
//! collection and maintains a shadow ordered mirror whose order and length
//! always match the authoritative collection. Diffs are processed strictly
//! in arrival order, with one explicit optimization: a removal immediately
//! followed by a re-insertion of the same room is coalesced into a single
//! update operation, which avoids tearing down and rebuilding that room's
//! timeline engine while producing the identical final mirror state.
//!
//! The reconciler itself performs no backend calls: it returns the list of
//! actions (add, update, remove, clear) that the caller carries out.

use vstd::prelude::*;

use crate::diffs::{apply_diff, apply_diffs, ListDiff};
use crate::rooms::RoomListServiceRoomInfo;

verus! {

/// The bookkeeping that one diff batch asks the caller to carry out, in
/// order. Each removed room goes through an individual removal action, even
/// for bulk structural changes, so that tombstone linkage and timeline
/// engine teardown are never silently skipped.
#[derive(Clone, Copy, Debug, PartialEq, Eq, Structural)]
pub enum DirectoryAction {
    /// A new room entered the directory: resolve its details, establish its
    /// timeline engine, then announce it.
    AddRoom {
        /// The room that was added.
        room: RoomListServiceRoomInfo,
    },
    /// An existing room changed: diff the old against the new room and emit
    /// updates only for the fields that actually changed.
    UpdateRoom {
        /// The directory's previous record of the room.
        old_room: RoomListServiceRoomInfo,
        /// The room as the backend reports it now.
        new_room: RoomListServiceRoomInfo,
    },
    /// A room left the directory: tear down its timeline engine and remove
    /// it from the rooms list.
    RemoveRoom {
        /// The room that was removed.
        room: RoomListServiceRoomInfo,
    },
    /// Every room left the directory at once.
    ClearRooms,
    /// A diff carried an index past the end of the mirror: a logic error,
    /// reported and skipped, never fatal.
    IndexOutOfBounds,
}

/// A reconciler run's outcome: the mirror afterwards and the actions asked
/// of the caller, in order.
pub ghost struct DirModel {
    /// The mirrored room directory.
    pub rooms: Seq<RoomListServiceRoomInfo>,
    /// The bookkeeping actions, in the order they must be carried out.
    pub actions: Seq<DirectoryAction>,
}

/// Whether this diff removes exactly one room.
pub open spec fn is_removal(d: ListDiff<RoomListServiceRoomInfo>) -> bool {
    d is PopFront || d is PopBack || d is Remove
}

/// Whether the removal applies to a mirror of this content.
pub open spec fn removal_valid(rooms: Seq<RoomListServiceRoomInfo>, d: ListDiff<
    RoomListServiceRoomInfo,
>) -> bool {
    match d {
        ListDiff::PopFront => rooms.len() > 0,
        ListDiff::PopBack => rooms.len() > 0,
        ListDiff::Remove { index } => index < rooms.len(),
        _ => false,
    }
}

/// The room that the removal takes out of the mirror.
pub open spec fn removed_room(rooms: Seq<RoomListServiceRoomInfo>, d: ListDiff<
    RoomListServiceRoomInfo,
>) -> RoomListServiceRoomInfo {
    match d {
        ListDiff::PopFront => rooms[0],
        ListDiff::PopBack => rooms[rooms.len() - 1],
        ListDiff::Remove { index } => rooms[index as int],
        _ => rooms[0],
    }
}

/// Whether this diff inserts exactly one room.
pub open spec fn is_insertion(d: ListDiff<RoomListServiceRoomInfo>) -> bool {
    d is PushFront || d is PushBack || d is Insert
}

/// The room that the insertion adds.
pub open spec fn inserted_room(d: ListDiff<RoomListServiceRoomInfo>) -> RoomListServiceRoomInfo {
    match d {
        ListDiff::PushFront { value } => value,
        ListDiff::PushBack { value } => value,
        ListDiff::Insert { value, .. } => value,
        _ => arbitrary(),
    }
}

/// Whether the insertion applies to a mirror of this content.
pub open spec fn insertion_valid(rooms: Seq<RoomListServiceRoomInfo>, d: ListDiff<
    RoomListServiceRoomInfo,
>) -> bool {
    match d {
        ListDiff::PushFront { .. } => true,
        ListDiff::PushBack { .. } => true,
        ListDiff::Insert { index, .. } => index <= rooms.len(),
        _ => false,
    }
}

/// Whether a removal of `room` may be coalesced with the next diff: the
/// next diff must re-insert a room with the very same identifier, at a
/// position that exists.
pub open spec fn coalesces(
    rooms_after_removal: Seq<RoomListServiceRoomInfo>,
    room: RoomListServiceRoomInfo,
    next: ListDiff<RoomListServiceRoomInfo>,
) -> bool {
    &&& is_insertion(next)
    &&& insertion_valid(rooms_after_removal, next)
    &&& inserted_room(next).room_id == room.room_id
}

/// The actions that one non-removal diff asks for.
pub open spec fn diff_actions(rooms: Seq<RoomListServiceRoomInfo>, d: ListDiff<
    RoomListServiceRoomInfo,
>) -> Seq<DirectoryAction> {
    match d {
        ListDiff::Append { values } => values@.map_values(
            |r: RoomListServiceRoomInfo| DirectoryAction::AddRoom { room: r },
        ),
        ListDiff::Clear => seq![DirectoryAction::ClearRooms],
        ListDiff::PushFront { value } => seq![DirectoryAction::AddRoom { room: value }],
        ListDiff::PushBack { value } => seq![DirectoryAction::AddRoom { room: value }],
        ListDiff::Insert { index, value } => if index <= rooms.len() {
            seq![DirectoryAction::AddRoom { room: value }]
        } else {
            seq![DirectoryAction::IndexOutOfBounds]
        },
        ListDiff::SetAt { index, value } => if index < rooms.len() {
            seq![
                DirectoryAction::UpdateRoom { old_room: rooms[index as int], new_room: value },
            ]
        } else {
            seq![DirectoryAction::IndexOutOfBounds]
        },
        ListDiff::Truncate { length } => if length >= rooms.len() {
            Seq::empty()
        } else {
            // Rooms leave one at a time, from the back.
            Seq::new(
                (rooms.len() - length) as nat,
                |i: int| DirectoryAction::RemoveRoom { room: rooms[rooms.len() - 1 - i] },
            )
        },
        ListDiff::Reset { values } => Seq::new(
            rooms.len(),
            |i: int| DirectoryAction::RemoveRoom { room: rooms[rooms.len() - 1 - i] },
        ) + seq![DirectoryAction::ClearRooms] + values@.map_values(
            |r: RoomListServiceRoomInfo| DirectoryAction::AddRoom { room: r },
        ),
        _ => Seq::empty(),
    }
}

/// The reference model of the reconciler over a whole batch: the mirror
/// follows the diff reference model, and the actions follow each diff,
/// except that a valid removal immediately followed by a re-insertion of
/// the same room identifier becomes one update action over the same mirror
/// change.
pub open spec fn dir_fold(rooms: Seq<RoomListServiceRoomInfo>, ds: Seq<ListDiff<
    RoomListServiceRoomInfo,
>>) -> DirModel
    decreases ds.len(),
{
    if ds.len() == 0 {
        DirModel { rooms, actions: Seq::empty() }
    } else {
        let d = ds[0];
        if is_removal(d) {
            if removal_valid(rooms, d) {
                let room = removed_room(rooms, d);
                let rooms1 = apply_diff(rooms, d);
                if ds.len() >= 2 && coalesces(rooms1, room, ds[1]) {
                    let rooms2 = apply_diff(rooms1, ds[1]);
                    let tail = dir_fold(rooms2, ds.skip(2));
                    DirModel {
                        rooms: tail.rooms,
                        actions: seq![
                            DirectoryAction::UpdateRoom {
                                old_room: room,
                                new_room: inserted_room(ds[1]),
                            },
                        ] + tail.actions,
                    }
                } else {
                    let tail = dir_fold(rooms1, ds.drop_first());
                    DirModel {
                        rooms: tail.rooms,
                        actions: seq![DirectoryAction::RemoveRoom { room }] + tail.actions,
                    }
                }
            } else {
                let tail = dir_fold(rooms, ds.drop_first());
                let here: Seq<DirectoryAction> = if d is Remove {
                    seq![DirectoryAction::IndexOutOfBounds]
                } else {
                    // Popping from an empty mirror is silently a no-op.
                    Seq::empty()
                };
                DirModel { rooms: tail.rooms, actions: here + tail.actions }
            }
        } else {
            let tail = dir_fold(apply_diff(rooms, d), ds.drop_first());
            DirModel { rooms: tail.rooms, actions: diff_actions(rooms, d) + tail.actions }
        }
    }
}

/// The reconciler's mirror always equals the plain diff reference model:
/// coalescing changes which actions come out, never the mirror.
pub proof fn lemma_dir_fold_rooms(rooms: Seq<RoomListServiceRoomInfo>, ds: Seq<ListDiff<
    RoomListServiceRoomInfo,
>>)
    ensures
        dir_fold(rooms, ds).rooms == apply_diffs(rooms, ds),
    decreases ds.len(),
{
    if ds.len() > 0 {
        let d = ds[0];
        if is_removal(d) && removal_valid(rooms, d) && ds.len() >= 2 && coalesces(
            apply_diff(rooms, d),
            removed_room(rooms, d),
            ds[1],
        ) {
            let rooms1 = apply_diff(rooms, d);
            let rooms2 = apply_diff(rooms1, ds[1]);
            lemma_dir_fold_rooms(rooms2, ds.skip(2));
            assert(ds.drop_first()[0] == ds[1]);
            assert(ds.skip(2) =~= ds.drop_first().drop_first());
            assert(apply_diffs(rooms, ds) == apply_diffs(rooms1, ds.drop_first()));
            assert(apply_diffs(rooms1, ds.drop_first()) == apply_diffs(
                rooms2,
                ds.drop_first().drop_first(),
            ));
        } else {
            lemma_dir_fold_rooms(apply_diff(rooms, d), ds.drop_first());
            if is_removal(d) && !removal_valid(rooms, d) {
                assert(apply_diff(rooms, d) == rooms);
            }
        }
    }
}

/// Coalescing is observationally equivalent to the uncoalesced sequence
/// with respect to the final mirror state: replaying a valid removal
/// followed by a re-insertion of the same room identifier through the
/// reconciler yields exactly the mirror of the naive remove-then-insert
/// replay, and differs only in which actions are emitted — one update
/// instead of a removal plus an addition.
pub proof fn lemma_remove_insert_coalescing(
    rooms: Seq<RoomListServiceRoomInfo>,
    d_remove: ListDiff<RoomListServiceRoomInfo>,
    d_insert: ListDiff<RoomListServiceRoomInfo>,
)
    requires
        is_removal(d_remove),
        removal_valid(rooms, d_remove),
        coalesces(apply_diff(rooms, d_remove), removed_room(rooms, d_remove), d_insert),
    ensures
        dir_fold(rooms, seq![d_remove, d_insert]).rooms == apply_diffs(
            rooms,
            seq![d_remove, d_insert],
        ),
        dir_fold(rooms, seq![d_remove, d_insert]).actions =~= seq![
            DirectoryAction::UpdateRoom {
                old_room: removed_room(rooms, d_remove),
                new_room: inserted_room(d_insert),
            },
        ],
{
    let ds = seq![d_remove, d_insert];
    lemma_dir_fold_rooms(rooms, ds);
    assert(ds[0] == d_remove);
    assert(ds[1] == d_insert);
    assert(ds.skip(2) =~= Seq::<ListDiff<RoomListServiceRoomInfo>>::empty());
    let rooms1 = apply_diff(rooms, d_remove);
    let rooms2 = apply_diff(rooms1, d_insert);
    assert(dir_fold(rooms2, ds.skip(2)).actions == Seq::<DirectoryAction>::empty());
}

/// The room directory reconciler: the shadow mirror of the backend's
/// ordered room collection.
pub struct RoomDirectory {
    /// The mirrored rooms, in the backend's order.
    pub all_known_rooms: Vec<RoomListServiceRoomInfo>,
}

impl RoomDirectory {
    /// An empty directory, as it stands before the first diff batch.
    pub fn new() -> (r: RoomDirectory)
        ensures
            r.all_known_rooms@ == Seq::<RoomListServiceRoomInfo>::empty(),
    {
        RoomDirectory { all_known_rooms: Vec::new() }
    }

    /// Replays one diff batch against the directory mirror, in arrival
    /// order, and returns the bookkeeping actions the caller must carry
    /// out, in order.
    ///
    /// The mirror afterwards equals the plain diff reference model over the
    /// whole batch; a valid removal immediately followed by a re-insertion
    /// of the same room identifier is carried out as one update action over
    /// the identical mirror change.
    #[verifier::loop_isolation(false)]
    #[verifier::rlimit(100)]
    #[verifier::spinoff_prover]
    pub fn apply_room_list_batch(
        &mut self,
        batch: Vec<ListDiff<RoomListServiceRoomInfo>>,
    ) -> (actions: Vec<DirectoryAction>)
        ensures
            final(self).all_known_rooms@ == apply_diffs(old(self).all_known_rooms@, batch@),
            actions@ == dir_fold(old(self).all_known_rooms@, batch@).actions,
    {
        let ghost rooms0: Seq<RoomListServiceRoomInfo> = self.all_known_rooms@;
        let ghost ds0: Seq<ListDiff<RoomListServiceRoomInfo>> = batch@;
        let mut actions: Vec<DirectoryAction> = Vec::new();
        let mut rest: Vec<ListDiff<RoomListServiceRoomInfo>> = batch;

        proof {
            lemma_dir_fold_rooms(rooms0, ds0);
        }

        while rest.len() > 0
            invariant
                dir_fold(self.all_known_rooms@, rest@).rooms == dir_fold(rooms0, ds0).rooms,
                actions@ + dir_fold(self.all_known_rooms@, rest@).actions == dir_fold(
                    rooms0,
                    ds0,
                ).actions,
            decreases rest.len(),
        {
            let ghost rooms_pre: Seq<RoomListServiceRoomInfo> = self.all_known_rooms@;
            let ghost rest_pre: Seq<ListDiff<RoomListServiceRoomInfo>> = rest@;
            let ghost actions_pre: Seq<DirectoryAction> = actions@;
            let d: ListDiff<RoomListServiceRoomInfo> = rest.remove(0);
            proof {
                assert(rest@ =~= rest_pre.drop_first());
            }
            match d {
                ListDiff::Append { values } => {
                    let ghost vals: Seq<RoomListServiceRoomInfo> = values@;
                    let mut idx: usize = 0;
                    while idx < values.len()
                        invariant
                            idx <= values.len(),
                            values@ == vals,
                            actions@ == actions_pre + vals.take(idx as int).map_values(
                                |r: RoomListServiceRoomInfo| DirectoryAction::AddRoom { room: r },
                            ),
                        decreases values.len() - idx,
                    {
                        proof {
                            assert(vals.take(idx as int + 1) =~= vals.take(idx as int).push(
                                vals[idx as int],
                            ));
                            assert(vals.take(idx as int + 1).map_values(
                                |r: RoomListServiceRoomInfo| DirectoryAction::AddRoom { room: r },
                            ) =~= vals.take(idx as int).map_values(
                                |r: RoomListServiceRoomInfo| DirectoryAction::AddRoom { room: r },
                            ).push(DirectoryAction::AddRoom { room: vals[idx as int] }));
                        }
                        let room: RoomListServiceRoomInfo = values[idx];
                        actions.push(DirectoryAction::AddRoom { room });
                        idx = idx + 1;
                    }
                    let mut incoming: Vec<RoomListServiceRoomInfo> = values;
                    self.all_known_rooms.append(&mut incoming);
                    proof {
                        assert(vals.take(vals.len() as int) =~= vals);
                    }
                }
                ListDiff::Clear => {
                    actions.push(DirectoryAction::ClearRooms);
                    self.all_known_rooms.clear();
                }
                ListDiff::PushFront { value } => {
                    actions.push(DirectoryAction::AddRoom { room: value });
                    self.all_known_rooms.insert(0, value);
                }
                ListDiff::PushBack { value } => {
                    actions.push(DirectoryAction::AddRoom { room: value });
                    self.all_known_rooms.push(value);
                }
                ListDiff::PopFront => {
                    if self.all_known_rooms.len() > 0 {
                        let room: RoomListServiceRoomInfo = self.all_known_rooms.remove(0);
                        proof {
                            assert(self.all_known_rooms@ =~= apply_diff(rooms_pre, d));
                        }
                        self.coalesce_or_remove(room, &mut rest, &mut actions);
                    }
                }
                ListDiff::PopBack => {
                    if self.all_known_rooms.len() > 0 {
                        let room: RoomListServiceRoomInfo = self.all_known_rooms.pop().unwrap();
                        proof {
                            assert(self.all_known_rooms@ =~= apply_diff(rooms_pre, d));
                        }
                        self.coalesce_or_remove(room, &mut rest, &mut actions);
                    }
                }
                ListDiff::Insert { index, value } => {
                    if index <= self.all_known_rooms.len() {
                        actions.push(DirectoryAction::AddRoom { room: value });
                        self.all_known_rooms.insert(index, value);
                    } else {
                        actions.push(DirectoryAction::IndexOutOfBounds);
                    }
                }
                ListDiff::SetAt { index, value } => {
                    if index < self.all_known_rooms.len() {
                        let old_room: RoomListServiceRoomInfo = self.all_known_rooms[index];
                        actions.push(
                            DirectoryAction::UpdateRoom { old_room, new_room: value },
                        );
                        self.all_known_rooms.remove(index);
                        self.all_known_rooms.insert(index, value);
                        proof {
                            assert(self.all_known_rooms@ =~= rooms_pre.update(
                                index as int,
                                value,
                            ));
                        }
                    } else {
                        actions.push(DirectoryAction::IndexOutOfBounds);
                    }
                }
                ListDiff::Remove { index } => {
                    if index < self.all_known_rooms.len() {
                        let room: RoomListServiceRoomInfo = self.all_known_rooms.remove(index);
                        proof {
                            assert(self.all_known_rooms@ =~= apply_diff(rooms_pre, d));
                        }
                        self.coalesce_or_remove(room, &mut rest, &mut actions);
                    } else {
                        actions.push(DirectoryAction::IndexOutOfBounds);
                    }
                }
                ListDiff::Truncate { length } => {
                    while self.all_known_rooms.len() > length
                        invariant
                            length <= self.all_known_rooms@.len() <= rooms_pre.len() || (
                            self.all_known_rooms@ == rooms_pre && rooms_pre.len()
                                <= length as int),
                            self.all_known_rooms@ == rooms_pre.take(
                                self.all_known_rooms@.len() as int,
                            ),
                            actions@ == actions_pre + Seq::new(
                                (rooms_pre.len() - self.all_known_rooms@.len()) as nat,
                                |i: int|
                                    DirectoryAction::RemoveRoom {
                                        room: rooms_pre[rooms_pre.len() - 1 - i],
                                    },
                            ),
                        decreases self.all_known_rooms.len(),
                    {
                        let room: RoomListServiceRoomInfo = self.all_known_rooms.pop().unwrap();
                        actions.push(DirectoryAction::RemoveRoom { room });
                        proof {
                            let k = self.all_known_rooms@.len() as int;
                            assert(self.all_known_rooms@ =~= rooms_pre.take(k));
                            assert(actions@ =~= actions_pre + Seq::new(
                                (rooms_pre.len() - k) as nat,
                                |i: int|
                                    DirectoryAction::RemoveRoom {
                                        room: rooms_pre[rooms_pre.len() - 1 - i],
                                    },
                            ));
                        }
                    }
                    proof {
                        if rooms_pre.len() <= length as int {
                            assert(actions@ =~= actions_pre);
                            assert(self.all_known_rooms@ =~= apply_diff(
                                rooms_pre,
                                ListDiff::Truncate::<RoomListServiceRoomInfo> { length },
                            ));
                        } else {
                            assert(self.all_known_rooms@ =~= rooms_pre.take(length as int));
                        }
                    }
                }
                ListDiff::Reset { values } => {
                    while self.all_known_rooms.len() > 0
                        invariant
                            self.all_known_rooms@.len() <= rooms_pre.len(),
                            self.all_known_rooms@ == rooms_pre.take(
                                self.all_known_rooms@.len() as int,
                            ),
                            actions@ == actions_pre + Seq::new(
                                (rooms_pre.len() - self.all_known_rooms@.len()) as nat,
                                |i: int|
                                    DirectoryAction::RemoveRoom {
                                        room: rooms_pre[rooms_pre.len() - 1 - i],
                                    },
                            ),
                        decreases self.all_known_rooms.len(),
                    {
                        let room: RoomListServiceRoomInfo = self.all_known_rooms.pop().unwrap();
                        actions.push(DirectoryAction::RemoveRoom { room });
                        proof {
                            let k = self.all_known_rooms@.len() as int;
                            assert(self.all_known_rooms@ =~= rooms_pre.take(k));
                            assert(actions@ =~= actions_pre + Seq::new(
                                (rooms_pre.len() - k) as nat,
                                |i: int|
                                    DirectoryAction::RemoveRoom {
                                        room: rooms_pre[rooms_pre.len() - 1 - i],
                                    },
                            ));
                        }
                    }
                    actions.push(DirectoryAction::ClearRooms);
                    let ghost vals: Seq<RoomListServiceRoomInfo> = values@;
                    let ghost actions_mid: Seq<DirectoryAction> = actions@;
                    let mut idx: usize = 0;
                    while idx < values.len()
                        invariant
                            idx <= values.len(),
                            values@ == vals,
                            actions@ == actions_mid + vals.take(idx as int).map_values(
                                |r: RoomListServiceRoomInfo| DirectoryAction::AddRoom { room: r },
                            ),
                        decreases values.len() - idx,
                    {
                        proof {
                            assert(vals.take(idx as int + 1) =~= vals.take(idx as int).push(
                                vals[idx as int],
                            ));
                            assert(vals.take(idx as int + 1).map_values(
                                |r: RoomListServiceRoomInfo| DirectoryAction::AddRoom { room: r },
                            ) =~= vals.take(idx as int).map_values(
                                |r: RoomListServiceRoomInfo| DirectoryAction::AddRoom { room: r },
                            ).push(DirectoryAction::AddRoom { room: vals[idx as int] }));
                        }
                        let room: RoomListServiceRoomInfo = values[idx];
                        actions.push(DirectoryAction::AddRoom { room });
                        idx = idx + 1;
                    }
                    self.all_known_rooms = values;
                    proof {
                        assert(vals.take(vals.len() as int) =~= vals);
                        assert(actions@ =~= actions_pre + diff_actions(
                            rooms_pre,
                            ListDiff::Reset { values: self.all_known_rooms },
                        ));
                    }
                }
            }
            proof {
                assert(rest_pre[0] == d);
                if is_removal(d) && removal_valid(rooms_pre, d) {
                    let room = removed_room(rooms_pre, d);
                    let rooms1 = apply_diff(rooms_pre, d);
                    if rest_pre.len() >= 2 && coalesces(rooms1, room, rest_pre[1]) {
                        assert(rest_pre.drop_first()[0] == rest_pre[1]);
                        assert(rest@ =~= rest_pre.skip(2));
                        assert(rest_pre.skip(2) =~= rest_pre.drop_first().drop_first());
                    }
                }
                assert(dir_fold(rooms_pre, rest_pre).rooms == dir_fold(
                    self.all_known_rooms@,
                    rest@,
                ).rooms);
                assert(actions@ + dir_fold(self.all_known_rooms@, rest@).actions =~= dir_fold(
                    rooms0,
                    ds0,
                ).actions);
            }
        }
        actions
    }

    /// After taking `room` out of the mirror, either coalesces with the
    /// immediately following diff — when that diff re-inserts a room with
    /// the same identifier at a valid position, it is consumed, the room is
    /// re-inserted, and a single update action is recorded — or records the
    /// removal action.
    fn coalesce_or_remove(
        &mut self,
        room: RoomListServiceRoomInfo,
        rest: &mut Vec<ListDiff<RoomListServiceRoomInfo>>,
        actions: &mut Vec<DirectoryAction>,
    )
        ensures
            ({
                let rooms1 = old(self).all_known_rooms@;
                if old(rest)@.len() > 0 && coalesces(rooms1, room, old(rest)@[0]) {
                    &&& final(rest)@ == old(rest)@.drop_first()
                    &&& final(self).all_known_rooms@ == apply_diff(rooms1, old(rest)@[0])
                    &&& final(actions)@ == old(actions)@.push(
                        DirectoryAction::UpdateRoom {
                            old_room: room,
                            new_room: inserted_room(old(rest)@[0]),
                        },
                    )
                } else {
                    &&& final(rest)@ == old(rest)@
                    &&& final(self).all_known_rooms@ == old(self).all_known_rooms@
                    &&& final(actions)@ == old(actions)@.push(
                        DirectoryAction::RemoveRoom { room },
                    )
                }
            }),
    {
        if rest.len() > 0 {
            let ghost rest_pre: Seq<ListDiff<RoomListServiceRoomInfo>> = rest@;
            let next: ListDiff<RoomListServiceRoomInfo> = rest.remove(0);
            let matches_next: bool = match &next {
                ListDiff::Insert { index, value } => *index <= self.all_known_rooms.len()
                    && value.room_id == room.room_id,
                ListDiff::PushFront { value } => value.room_id == room.room_id,
                ListDiff::PushBack { value } => value.room_id == room.room_id,
                _ => false,
            };
            if matches_next {
                match next {
                    ListDiff::Insert { index, value } => {
                        actions.push(
                            DirectoryAction::UpdateRoom { old_room: room, new_room: value },
                        );
                        self.all_known_rooms.insert(index, value);
                    }
                    ListDiff::PushFront { value } => {
                        actions.push(
                            DirectoryAction::UpdateRoom { old_room: room, new_room: value },
                        );
                        self.all_known_rooms.insert(0, value);
                    }
                    ListDiff::PushBack { value } => {
                        actions.push(
                            DirectoryAction::UpdateRoom { old_room: room, new_room: value },
                        );
                        self.all_known_rooms.push(value);
                    }
                    _ => {
                        proof {
                            assert(false);
                        }
                    }
                }
                proof {
                    assert(rest@ =~= rest_pre.drop_first());
                }
            } else {
                rest.insert(0, next);
                actions.push(DirectoryAction::RemoveRoom { room });
                proof {
                    assert(rest@ =~= rest_pre);
                }
            }
        } else {
            actions.push(DirectoryAction::RemoveRoom { room });
        }
    }
}

} // verus!
