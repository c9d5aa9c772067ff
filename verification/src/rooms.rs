//! Bookkeeping for the set of joined rooms and for tombstoned rooms.
//!
//! A room is known by an opaque, unique, stable identifier; this crate
//! carries such identifiers as plain integers handed out by the caller. The
//! registry of joined rooms records, per room, which old tombstoned room it
//! replaces; the tombstone map records replacements that point at rooms not
//! seen yet.

use vstd::prelude::*;

use crate::rooms_list::{JoinedRoomInfo, RoomsListUpdate};
use crate::signals::Broadcaster;
use crate::update_queue::RoomsUpdateQueue;

verus! {

/// The membership state of a room, as reported by the backend.
#[derive(Clone, Copy, Debug, PartialEq, Eq, Structural)]
pub enum RoomState {
    /// The user has joined the room.
    Joined,
    /// The user has been invited to the room.
    Invited,
    /// The user has left the room.
    Left,
    /// The user has knocked on the room.
    Knocked,
    /// The user has been banned from the room.
    Banned,
}

/// What the room directory mirror records about one room received from the
/// backend's room list: enough to resolve positional diffs against the right
/// entity and to detect state transitions.
#[derive(Clone, Copy, Debug, PartialEq, Eq, Structural)]
pub struct RoomListServiceRoomInfo {
    /// The room's opaque identifier.
    pub room_id: u64,
    /// The room's membership state when this entry was recorded.
    pub room_state: RoomState,
}

/// The number of unread messages in a room.
#[derive(Clone, Copy, Debug, PartialEq, Eq, Structural)]
pub enum UnreadMessageCount {
    /// There are unread messages, but the count is unknown.
    Unknown,
    /// There are unread messages, and the count is known exactly.
    Known(u64),
}

/// What is recorded about one joined room: which old tombstoned room it
/// replaces, and whether its single pair of timeline channel endpoints has
/// already been taken by the UI.
#[derive(Clone, Copy, Debug, PartialEq, Eq, Structural)]
pub struct JoinedRoomEntry {
    /// The room's opaque identifier.
    pub room_id: u64,
    /// The old tombstoned room this room replaces, if any.
    pub replaces_tombstoned_room: Option<u64>,
    /// Whether the room's timeline endpoints were already handed out.
    pub endpoints_taken: bool,
}

/// The registry of joined rooms the client currently knows about, one entry
/// per room identifier.
pub struct JoinedRoomsRegistry {
    /// The entries, with distinct room identifiers.
    pub rooms: Vec<JoinedRoomEntry>,
}

/// The rooms that were tombstoned before their replacement was seen: each
/// entry maps the replacement room's identifier to the old room it
/// replaces.
pub struct TombstonedRooms {
    /// Pairs of replacement identifier and old identifier, with distinct
    /// replacement identifiers.
    pub entries: Vec<(u64, u64)>,
}

/// Whether the registry has an entry for this room.
pub open spec fn registry_has(s: Seq<JoinedRoomEntry>, id: u64) -> bool {
    exists|i: int| 0 <= i < s.len() && s[i].room_id == id
}

/// The position of this room's registry entry.
pub open spec fn registry_index(s: Seq<JoinedRoomEntry>, id: u64) -> int {
    choose|i: int| 0 <= i < s.len() && s[i].room_id == id
}

/// Registry entries have distinct room identifiers.
pub open spec fn registry_wf(s: Seq<JoinedRoomEntry>) -> bool {
    forall|i: int, j: int| 0 <= i < j < s.len() ==> s[i].room_id != s[j].room_id
}

/// Whether a pending tombstone entry exists for this replacement room.
pub open spec fn tombstones_have(s: Seq<(u64, u64)>, replacement: u64) -> bool {
    exists|i: int| 0 <= i < s.len() && s[i].0 == replacement
}

/// The position of the pending tombstone entry for this replacement room.
pub open spec fn tombstone_index(s: Seq<(u64, u64)>, replacement: u64) -> int {
    choose|i: int| 0 <= i < s.len() && s[i].0 == replacement
}

/// Tombstone entries have distinct replacement identifiers.
pub open spec fn tombstones_wf(s: Seq<(u64, u64)>) -> bool {
    forall|i: int, j: int| 0 <= i < j < s.len() ==> s[i].0 != s[j].0
}

/// Finds the position of a registry entry by its room identifier.
fn find_registry(rooms: &Vec<JoinedRoomEntry>, room_id: u64) -> (r: Option<usize>)
    ensures
        match r {
            Some(i) => i < rooms@.len() && rooms@[i as int].room_id == room_id,
            None => !registry_has(rooms@, room_id),
        },
{
    let mut i: usize = 0;
    while i < rooms.len()
        invariant
            i <= rooms@.len(),
            forall|k: int| 0 <= k < i ==> rooms@[k].room_id != room_id,
        decreases rooms@.len() - i,
    {
        if rooms[i].room_id == room_id {
            return Some(i);
        }
        i = i + 1;
    }
    None
}

/// Finds the position of a pending tombstone entry by its replacement
/// room's identifier.
fn find_tombstone(entries: &Vec<(u64, u64)>, replacement: u64) -> (r: Option<usize>)
    ensures
        match r {
            Some(i) => i < entries@.len() && entries@[i as int].0 == replacement,
            None => !tombstones_have(entries@, replacement),
        },
{
    let mut i: usize = 0;
    while i < entries.len()
        invariant
            i <= entries@.len(),
            forall|k: int| 0 <= k < i ==> entries@[k].0 != replacement,
        decreases entries@.len() - i,
    {
        if entries[i].0 == replacement {
            return Some(i);
        }
        i = i + 1;
    }
    None
}

impl JoinedRoomsRegistry {
    /// An empty registry.
    pub fn new() -> (r: JoinedRoomsRegistry)
        ensures
            r.rooms@ == Seq::<JoinedRoomEntry>::empty(),
            registry_wf(r.rooms@),
    {
        JoinedRoomsRegistry { rooms: Vec::new() }
    }

    /// Hands out the single pair of timeline channel endpoints for this
    /// room. This succeeds at most once per room: afterwards the endpoints
    /// count as taken, so only one receiver can ever exist.
    pub fn take_timeline_endpoints(&mut self, room_id: u64) -> (r: bool)
        requires
            registry_wf(old(self).rooms@),
        ensures
            registry_wf(final(self).rooms@),
            r == (registry_has(old(self).rooms@, room_id) && !old(self).rooms@[registry_index(
                old(self).rooms@,
                room_id,
            )].endpoints_taken),
            r ==> final(self).rooms@ == old(self).rooms@.update(
                registry_index(old(self).rooms@, room_id),
                JoinedRoomEntry {
                    endpoints_taken: true,
                    ..old(self).rooms@[registry_index(old(self).rooms@, room_id)]
                },
            ),
            !r ==> final(self).rooms@ == old(self).rooms@,
    {
        match find_registry(&self.rooms, room_id) {
            Some(i) => {
                proof {
                    assert(i as int == registry_index(self.rooms@, room_id));
                }
                let entry: JoinedRoomEntry = self.rooms[i];
                if entry.endpoints_taken {
                    false
                } else {
                    self.rooms.remove(i);
                    self.rooms.insert(i, JoinedRoomEntry { endpoints_taken: true, ..entry });
                    proof {
                        assert(self.rooms@ =~= old(self).rooms@.update(
                            i as int,
                            JoinedRoomEntry { endpoints_taken: true, ..entry },
                        ));
                    }
                    true
                }
            }
            None => false,
        }
    }
}

impl TombstonedRooms {
    /// An empty pending-tombstone map.
    pub fn new() -> (r: TombstonedRooms)
        ensures
            r.entries@ == Seq::<(u64, u64)>::empty(),
            tombstones_wf(r.entries@),
    {
        TombstonedRooms { entries: Vec::new() }
    }
}

/// Records that `room_id` has been tombstoned and replaced by
/// `replacement_room_id`. When the replacement room is already known, its
/// registry entry is marked immediately as replacing the old room;
/// otherwise the pair is kept in the pending map, consulted when the
/// replacement room is added later.
pub fn register_tombstoned_room(
    registry: &mut JoinedRoomsRegistry,
    tombstoned: &mut TombstonedRooms,
    room_id: u64,
    replacement_room_id: u64,
)
    requires
        registry_wf(old(registry).rooms@),
        tombstones_wf(old(tombstoned).entries@),
    ensures
        registry_wf(final(registry).rooms@),
        tombstones_wf(final(tombstoned).entries@),
        registry_has(old(registry).rooms@, replacement_room_id) ==> ({
            let i = registry_index(old(registry).rooms@, replacement_room_id);
            &&& final(registry).rooms@ == old(registry).rooms@.update(
                i,
                JoinedRoomEntry {
                    replaces_tombstoned_room: Some(room_id),
                    ..old(registry).rooms@[i]
                },
            )
            &&& final(tombstoned).entries@ == old(tombstoned).entries@
        }),
        !registry_has(old(registry).rooms@, replacement_room_id) ==> ({
            &&& final(registry).rooms@ == old(registry).rooms@
            &&& (if tombstones_have(old(tombstoned).entries@, replacement_room_id) {
                final(tombstoned).entries@ == old(tombstoned).entries@.update(
                    tombstone_index(old(tombstoned).entries@, replacement_room_id),
                    (replacement_room_id, room_id),
                )
            } else {
                final(tombstoned).entries@ == old(tombstoned).entries@.push(
                    (replacement_room_id, room_id),
                )
            })
        }),
{
    match find_registry(&registry.rooms, replacement_room_id) {
        Some(i) => {
            proof {
                assert(i as int == registry_index(registry.rooms@, replacement_room_id));
            }
            let entry: JoinedRoomEntry = registry.rooms[i];
            registry.rooms.remove(i);
            registry.rooms.insert(
                i,
                JoinedRoomEntry { replaces_tombstoned_room: Some(room_id), ..entry },
            );
            proof {
                assert(registry.rooms@ =~= old(registry).rooms@.update(
                    i as int,
                    JoinedRoomEntry { replaces_tombstoned_room: Some(room_id), ..entry },
                ));
            }
        }
        None => {
            match find_tombstone(&tombstoned.entries, replacement_room_id) {
                Some(j) => {
                    proof {
                        assert(j as int == tombstone_index(
                            tombstoned.entries@,
                            replacement_room_id,
                        ));
                    }
                    tombstoned.entries.remove(j);
                    tombstoned.entries.insert(j, (replacement_room_id, room_id));
                    proof {
                        assert(tombstoned.entries@ =~= old(tombstoned).entries@.update(
                            j as int,
                            (replacement_room_id, room_id),
                        ));
                    }
                }
                None => {
                    tombstoned.entries.push((replacement_room_id, room_id));
                }
            }
        }
    }
}

/// Registers a newly joined room and announces it: the room's registry
/// entry — and with it the room's timeline engine bookkeeping — exists
/// strictly before the "room added" update is enqueued, so that nothing
/// the UI does in reaction can reference a missing engine. Any pending
/// tombstone entry whose replacement is this room is resolved and recorded
/// on the new entry. Returns the old tombstoned room this room replaces,
/// if any.
pub fn add_joined_room_and_announce(
    registry: &mut JoinedRoomsRegistry,
    tombstoned: &mut TombstonedRooms,
    queue: &mut RoomsUpdateQueue,
    broadcaster: &Broadcaster,
    info: JoinedRoomInfo,
) -> (replaces: Option<u64>)
    requires
        registry_wf(old(registry).rooms@),
        tombstones_wf(old(tombstoned).entries@),
        !registry_has(old(registry).rooms@, info.room_id),
    ensures
        registry_wf(final(registry).rooms@),
        tombstones_wf(final(tombstoned).entries@),
        replaces == (if tombstones_have(old(tombstoned).entries@, info.room_id) {
            Some(
                old(tombstoned).entries@[tombstone_index(old(tombstoned).entries@, info.room_id)].1,
            )
        } else {
            None::<u64>
        }),
        final(registry).rooms@ == old(registry).rooms@.push(
            JoinedRoomEntry {
                room_id: info.room_id,
                replaces_tombstoned_room: replaces,
                endpoints_taken: false,
            },
        ),
        tombstones_have(old(tombstoned).entries@, info.room_id) ==> final(tombstoned).entries@
            == old(tombstoned).entries@.remove(
            tombstone_index(old(tombstoned).entries@, info.room_id),
        ),
        !tombstones_have(old(tombstoned).entries@, info.room_id) ==> final(tombstoned).entries@
            == old(tombstoned).entries@,
        final(queue)@ == old(queue)@.push(RoomsListUpdate::AddJoinedRoom(info)),
{
    let room_id: u64 = info.room_id;
    let replaces: Option<u64> = match find_tombstone(&tombstoned.entries, room_id) {
        Some(j) => {
            proof {
                assert(j as int == tombstone_index(tombstoned.entries@, room_id));
            }
            let pair: (u64, u64) = tombstoned.entries.remove(j);
            Some(pair.1)
        }
        None => None,
    };
    registry.rooms.push(
        JoinedRoomEntry { room_id, replaces_tombstoned_room: replaces, endpoints_taken: false },
    );
    crate::rooms_list::enqueue_rooms_list_update(
        queue,
        broadcaster,
        RoomsListUpdate::AddJoinedRoom(info),
    );
    proof {
        if tombstones_have(old(tombstoned).entries@, room_id) {
            assert(tombstoned.entries@ =~= old(tombstoned).entries@.remove(
                tombstone_index(old(tombstoned).entries@, room_id),
            ));
        }
    }
    replaces
}

/// Removes a room from the registry and announces the removal. As when a
/// room's bookkeeping is dropped, a recorded tombstone linkage is put back
/// into the pending map, so the linkage survives the teardown.
pub fn remove_room(
    registry: &mut JoinedRoomsRegistry,
    tombstoned: &mut TombstonedRooms,
    queue: &mut RoomsUpdateQueue,
    broadcaster: &Broadcaster,
    room: RoomListServiceRoomInfo,
)
    requires
        registry_wf(old(registry).rooms@),
        tombstones_wf(old(tombstoned).entries@),
    ensures
        registry_wf(final(registry).rooms@),
        tombstones_wf(final(tombstoned).entries@),
        final(queue)@ == old(queue)@.push(
            RoomsListUpdate::RemoveRoom { room_id: room.room_id, new_state: room.room_state },
        ),
        !registry_has(final(registry).rooms@, room.room_id),
        registry_has(old(registry).rooms@, room.room_id) ==> final(registry).rooms@ == old(
            registry,
        ).rooms@.remove(registry_index(old(registry).rooms@, room.room_id)),
        registry_has(old(registry).rooms@, room.room_id) ==> ({
            let e = old(registry).rooms@[registry_index(old(registry).rooms@, room.room_id)];
            match e.replaces_tombstoned_room {
                Option::Some(old_room) => if tombstones_have(
                    old(tombstoned).entries@,
                    room.room_id,
                ) {
                    final(tombstoned).entries@ == old(tombstoned).entries@.update(
                        tombstone_index(old(tombstoned).entries@, room.room_id),
                        (room.room_id, old_room),
                    )
                } else {
                    final(tombstoned).entries@ == old(tombstoned).entries@.push(
                        (room.room_id, old_room),
                    )
                },
                Option::None => final(tombstoned).entries@ == old(tombstoned).entries@,
            }
        }),
        !registry_has(old(registry).rooms@, room.room_id) ==> final(registry).rooms@ == old(
            registry,
        ).rooms@ && final(tombstoned).entries@ == old(tombstoned).entries@,
{
    let ghost regs0 = registry.rooms@;
    match find_registry(&registry.rooms, room.room_id) {
        Some(i) => {
            proof {
                assert(i as int == registry_index(registry.rooms@, room.room_id));
            }
            let entry: JoinedRoomEntry = registry.rooms.remove(i);
            if let Some(old_room) = entry.replaces_tombstoned_room {
                register_pending_tombstone(tombstoned, room.room_id, old_room);
            }
            proof {
                assert forall|k: int|
                    0 <= k < registry.rooms@.len() implies registry.rooms@[k].room_id
                    != room.room_id by {
                    if k < i as int {
                        assert(registry.rooms@[k] == regs0[k]);
                    } else {
                        assert(registry.rooms@[k] == regs0[k + 1]);
                    }
                }
            }
        }
        None => {}
    }
    crate::rooms_list::enqueue_rooms_list_update(
        queue,
        broadcaster,
        RoomsListUpdate::RemoveRoom { room_id: room.room_id, new_state: room.room_state },
    );
}

/// Puts a tombstone linkage into the pending map, replacing any entry for
/// the same replacement room.
fn register_pending_tombstone(tombstoned: &mut TombstonedRooms, replacement: u64, old_room: u64)
    requires
        tombstones_wf(old(tombstoned).entries@),
    ensures
        tombstones_wf(final(tombstoned).entries@),
        tombstones_have(old(tombstoned).entries@, replacement) ==> final(tombstoned).entries@
            == old(tombstoned).entries@.update(
            tombstone_index(old(tombstoned).entries@, replacement),
            (replacement, old_room),
        ),
        !tombstones_have(old(tombstoned).entries@, replacement) ==> final(tombstoned).entries@
            == old(tombstoned).entries@.push((replacement, old_room)),
{
    match find_tombstone(&tombstoned.entries, replacement) {
        Some(j) => {
            proof {
                assert(j as int == tombstone_index(tombstoned.entries@, replacement));
            }
            tombstoned.entries.remove(j);
            tombstoned.entries.insert(j, (replacement, old_room));
            proof {
                assert(tombstoned.entries@ =~= old(tombstoned).entries@.update(
                    j as int,
                    (replacement, old_room),
                ));
            }
        }
        None => {
            tombstoned.entries.push((replacement, old_room));
        }
    }
}

/// What a room's state transition asks the directory's caller to do.
#[derive(Clone, Copy, Debug, PartialEq, Eq, Structural)]
pub enum RoomUpdatePlan {
    /// The state did not change: diff the room's details in place.
    InPlace,
    /// The room was left or the user was banned: remove it.
    Remove,
    /// The room became joined or invited: add it as a new room.
    Add,
    /// Nothing to do for this transition.
    Ignore,
}

/// Decides what to do about a room whose backend record changed: an
/// unchanged state is diffed in place; a transition to left or banned
/// removes the room; a transition to joined or invited adds it anew; a
/// knock is left alone.
pub fn plan_room_update(old_state: RoomState, new_state: RoomState) -> (r: RoomUpdatePlan)
    ensures
        old_state == new_state ==> r is InPlace,
        old_state != new_state ==> match new_state {
            RoomState::Banned => r is Remove,
            RoomState::Left => r is Remove,
            RoomState::Joined => r is Add,
            RoomState::Invited => r is Add,
            RoomState::Knocked => r is Ignore,
        },
{
    if old_state == new_state {
        RoomUpdatePlan::InPlace
    } else {
        match new_state {
            RoomState::Banned => RoomUpdatePlan::Remove,
            RoomState::Left => RoomUpdatePlan::Remove,
            RoomState::Joined => RoomUpdatePlan::Add,
            RoomState::Invited => RoomUpdatePlan::Add,
            RoomState::Knocked => RoomUpdatePlan::Ignore,
        }
    }
}

/// What the directory knows about a room's displayable details, used to
/// diff an old against a new record.
#[derive(Clone, Debug)]
pub struct RoomDetails {
    /// The room's displayable name, if known.
    pub room_name: Option<String>,
    /// The room's tag set.
    pub tags: Vec<String>,
    /// The number of unread messages.
    pub num_unread_messages: u64,
    /// The number of unread mentions.
    pub num_unread_mentions: u64,
}

/// Whether two optional names agree.
pub open spec fn names_equal(a: Option<String>, b: Option<String>) -> bool {
    match (a, b) {
        (Option::None, Option::None) => true,
        (Option::Some(x), Option::Some(y)) => x@ == y@,
        _ => false,
    }
}

/// Whether two tag sets agree, element for element.
pub open spec fn tags_equal(a: Seq<String>, b: Seq<String>) -> bool {
    a.len() == b.len() && forall|i: int| 0 <= i < a.len() ==> a[i]@ == b[i]@
}

/// Compares two optional names.
fn option_names_equal(a: &Option<String>, b: &Option<String>) -> (r: bool)
    ensures
        r == names_equal(*a, *b),
{
    match (a, b) {
        (Option::None, Option::None) => true,
        (Option::Some(x), Option::Some(y)) => x.eq(y),
        _ => false,
    }
}

/// Compares two tag sets.
fn vec_names_equal(a: &Vec<String>, b: &Vec<String>) -> (r: bool)
    ensures
        r == tags_equal(a@, b@),
{
    if a.len() != b.len() {
        return false;
    }
    let mut i: usize = 0;
    while i < a.len()
        invariant
            i <= a@.len(),
            a@.len() == b@.len(),
            forall|k: int| 0 <= k < i ==> a@[k]@ == b@[k]@,
        decreases a@.len() - i,
    {
        let x: &String = &a[i];
        let y: &String = &b[i];
        if !x.eq(y) {
            return false;
        }
        i = i + 1;
    }
    true
}

/// Diffs an old against a new record of one room and produces exactly the
/// updates for the fields that actually changed: the displayable name (when
/// the new record has one), the tag set, and the unread counts — in that
/// order, at most one update each.
pub fn room_update_messages(
    room_id: u64,
    old_details: &RoomDetails,
    new_details: RoomDetails,
) -> (r: Vec<RoomsListUpdate>)
    ensures
        r@ == room_update_messages_spec(room_id, *old_details, new_details),
{
    let ghost snapshot: RoomDetails = new_details;
    let RoomDetails { room_name, tags, num_unread_messages, num_unread_mentions } = new_details;
    let mut r: Vec<RoomsListUpdate> = Vec::new();
    let name_changed: bool = match &room_name {
        Some(_) => !option_names_equal(&old_details.room_name, &room_name),
        None => false,
    };
    if name_changed {
        match room_name {
            Some(name) => {
                r.push(RoomsListUpdate::UpdateRoomName { room_id, new_room_name: name });
            }
            None => {
                proof {
                    assert(false);
                }
            }
        }
    }
    if !vec_names_equal(&old_details.tags, &tags) {
        r.push(RoomsListUpdate::Tags { room_id, new_tags: tags });
    }
    if old_details.num_unread_messages != num_unread_messages || old_details.num_unread_mentions
        != num_unread_mentions {
        r.push(
            RoomsListUpdate::UpdateNumUnreadMessages {
                room_id,
                count: UnreadMessageCount::Known(num_unread_messages),
                unread_mentions: num_unread_mentions,
            },
        );
    }
    proof {
        assert(r@ =~= room_update_messages_spec(room_id, *old_details, snapshot));
    }
    r
}

/// The updates that diffing one room's records produces: one per changed
/// field, in a fixed order.
pub open spec fn room_update_messages_spec(
    room_id: u64,
    old_details: RoomDetails,
    new_details: RoomDetails,
) -> Seq<RoomsListUpdate> {
    let name_part: Seq<RoomsListUpdate> = if new_details.room_name is Some && !names_equal(
        old_details.room_name,
        new_details.room_name,
    ) {
        seq![
            RoomsListUpdate::UpdateRoomName {
                room_id,
                new_room_name: new_details.room_name->Some_0,
            },
        ]
    } else {
        Seq::empty()
    };
    let tags_part: Seq<RoomsListUpdate> = if !tags_equal(old_details.tags@, new_details.tags@) {
        seq![RoomsListUpdate::Tags { room_id, new_tags: new_details.tags }]
    } else {
        Seq::empty()
    };
    let unread_part: Seq<RoomsListUpdate> = if old_details.num_unread_messages
        != new_details.num_unread_messages || old_details.num_unread_mentions
        != new_details.num_unread_mentions {
        seq![
            RoomsListUpdate::UpdateNumUnreadMessages {
                room_id,
                count: UnreadMessageCount::Known(new_details.num_unread_messages),
                unread_mentions: new_details.num_unread_mentions,
            },
        ]
    } else {
        Seq::empty()
    };
    name_part + tags_part + unread_part
}

} // verus!
