//! The single list of all rooms, as the UI displays it.
//!
//! Background tasks enqueue `RoomsListUpdate` records; the UI loop drains
//! the queue in arrival order and applies each update to this model, then
//! pushes one presentation patch per drain cycle. A room identifier appears
//! in at most one of the joined and invited collections at a time.

use vstd::prelude::*;
use vstd::string::StringExecFns;

use crate::invited_room::InvitedRoomInfo;
use crate::rooms::{RoomState, UnreadMessageCount};
use crate::signals::{broadcast_event, Broadcaster, UIUpdateMessage};
use crate::update_queue::RoomsUpdateQueue;

verus! {

/// The updates that the single list of all rooms displays. They are
/// enqueued by background tasks and dequeued by the UI loop.
#[derive(Clone, Debug)]
pub enum RoomsListUpdate {
    /// No rooms have been loaded yet.
    NotLoaded,
    /// Some rooms were loaded, and the server optionally told us the
    /// maximum number of rooms that will ever be loaded.
    LoadedRooms {
        /// The maximum number of rooms, if the server knows it.
        max_rooms: Option<u32>,
    },
    /// Add a new room to the list of rooms the user has been invited to.
    AddInvitedRoom(InvitedRoomInfo),
    /// Add a new room to the list of all rooms the user has joined.
    AddJoinedRoom(JoinedRoomInfo),
    /// Clear all rooms in the list of all rooms.
    ClearRooms,
    /// Update the latest event content and timestamp for the given room.
    UpdateLatestEvent {
        /// The room whose latest event changed.
        room_id: u64,
        /// The event's timestamp, in milliseconds since the epoch.
        timestamp: u64,
        /// The rendered text preview of the latest message.
        latest_message_text: String,
    },
    /// Update the number of unread messages for the given room.
    UpdateNumUnreadMessages {
        /// The room whose unread counts changed.
        room_id: u64,
        /// The number of unread messages.
        count: UnreadMessageCount,
        /// The number of unread mentions.
        unread_mentions: u64,
    },
    /// Update the displayable name for the given room.
    UpdateRoomName {
        /// The room whose name changed.
        room_id: u64,
        /// The new displayable name.
        new_room_name: String,
    },
    /// Remove the given room from the rooms list.
    RemoveRoom {
        /// The room that was removed.
        room_id: u64,
        /// The new state of the room, which caused its removal.
        new_state: RoomState,
    },
    /// Update the tags for the given room.
    Tags {
        /// The room whose tags changed.
        room_id: u64,
        /// The new tag set.
        new_tags: Vec<String>,
    },
    /// Update the status label at the bottom of the list of all rooms.
    Status {
        /// The new status.
        status: RoomsCollectionStatus,
    },
}

/// UI-related info about a joined room: what a preview of that room in the
/// rooms list needs.
#[derive(Clone, Debug)]
pub struct JoinedRoomInfo {
    /// The room's opaque identifier.
    pub room_id: u64,
    /// The displayable name of this room, if known.
    pub room_name: Option<String>,
    /// The number of unread messages in this room.
    pub num_unread_messages: u64,
    /// The number of unread mentions in this room.
    pub num_unread_mentions: u64,
    /// The canonical alias for this room, if any.
    pub canonical_alias: Option<String>,
    /// The alternative aliases for this room.
    pub alt_aliases: Vec<String>,
    /// The tags associated with this room (favourite, low priority, and so
    /// on), unordered.
    pub tags: Vec<String>,
    /// The timestamp and rendered text of the latest message in this room.
    pub latest: Option<(u64, String)>,
    /// The avatar reference for this room, if any.
    pub avatar: Option<String>,
    /// Whether this room has been paginated at least once.
    pub has_been_paginated: bool,
    /// Whether this room is currently selected in the UI.
    pub is_selected: bool,
    /// Whether this is a direct room.
    pub is_direct: bool,
}

/// The status label shown at the bottom of the list of all rooms.
#[derive(Clone, Debug)]
pub enum RoomsCollectionStatus {
    /// Nothing has been loaded yet.
    NotLoaded(String),
    /// Rooms are still being loaded.
    Loading(String),
    /// Every known room has been loaded.
    Loaded(String),
    /// Loading failed.
    Error(String),
}

/// The kind of a status label, apart from its display message.
#[derive(Clone, Copy, Debug, PartialEq, Eq, Structural)]
pub enum StatusKind {
    /// Nothing has been loaded yet.
    NotLoaded,
    /// Rooms are still being loaded.
    Loading,
    /// Every known room has been loaded.
    Loaded,
    /// Loading failed.
    Error,
}

/// The kind of a status label.
pub open spec fn status_kind(s: RoomsCollectionStatus) -> StatusKind {
    match s {
        RoomsCollectionStatus::NotLoaded(..) => StatusKind::NotLoaded,
        RoomsCollectionStatus::Loading(..) => StatusKind::Loading,
        RoomsCollectionStatus::Loaded(..) => StatusKind::Loaded,
        RoomsCollectionStatus::Error(..) => StatusKind::Error,
    }
}

/// The display message of a status label.
pub open spec fn status_message(s: RoomsCollectionStatus) -> Seq<char> {
    match s {
        RoomsCollectionStatus::NotLoaded(t) => t@,
        RoomsCollectionStatus::Loading(t) => t@,
        RoomsCollectionStatus::Loaded(t) => t@,
        RoomsCollectionStatus::Error(t) => t@,
    }
}

/// The mathematical model of the rooms list. The status label is modelled
/// by its kind; the exactness of the display messages is stated separately
/// on the operations that build them.
#[verifier::ext_equal]
pub ghost struct RoomsListView {
    /// The rooms the user has been invited to.
    pub invited: Seq<InvitedRoomInfo>,
    /// The rooms the user has joined.
    pub joined: Seq<JoinedRoomInfo>,
    /// The invited rooms currently displayed, top to bottom.
    pub displayed_invited: Seq<u64>,
    /// The joined rooms currently displayed, top to bottom.
    pub displayed_joined: Seq<u64>,
    /// The kind of the bottom status label.
    pub status: StatusKind,
    /// The currently selected room, if any.
    pub current_active_room: Option<u64>,
    /// The maximum number of rooms that will ever be loaded, if known.
    pub max_known_rooms: Option<u32>,
}

/// Whether a joined room with this identifier exists.
pub open spec fn has_joined(s: Seq<JoinedRoomInfo>, id: u64) -> bool {
    exists|i: int| 0 <= i < s.len() && s[i].room_id == id
}

/// The index of the joined room with this identifier.
pub open spec fn joined_index(s: Seq<JoinedRoomInfo>, id: u64) -> int {
    choose|i: int| 0 <= i < s.len() && s[i].room_id == id
}

/// Whether an invited room with this identifier exists.
pub open spec fn has_invited(s: Seq<InvitedRoomInfo>, id: u64) -> bool {
    exists|i: int| 0 <= i < s.len() && s[i].room_id == id
}

/// The index of the invited room with this identifier.
pub open spec fn invited_index(s: Seq<InvitedRoomInfo>, id: u64) -> int {
    choose|i: int| 0 <= i < s.len() && s[i].room_id == id
}

/// Whether this identifier occurs in a displayed-rooms list.
pub open spec fn has_id(s: Seq<u64>, id: u64) -> bool {
    exists|i: int| 0 <= i < s.len() && s[i] == id
}

/// The position of this identifier in a displayed-rooms list.
pub open spec fn id_index(s: Seq<u64>, id: u64) -> int {
    choose|i: int| 0 <= i < s.len() && s[i] == id
}

/// Removes this identifier's entry from a displayed-rooms list, if present.
pub open spec fn remove_id(s: Seq<u64>, id: u64) -> Seq<u64> {
    if has_id(s, id) {
        s.remove(id_index(s, id))
    } else {
        s
    }
}

/// A witness index for a joined room identifier that is known to exist.
pub proof fn joined_witness(s: Seq<JoinedRoomInfo>, id: u64) -> (w: int)
    requires
        has_joined(s, id),
    ensures
        0 <= w < s.len() && s[w].room_id == id,
{
    choose|i: int| 0 <= i < s.len() && s[i].room_id == id
}

/// A witness index for an invited room identifier that is known to exist.
pub proof fn invited_witness(s: Seq<InvitedRoomInfo>, id: u64) -> (w: int)
    requires
        has_invited(s, id),
    ensures
        0 <= w < s.len() && s[w].room_id == id,
{
    choose|i: int| 0 <= i < s.len() && s[i].room_id == id
}

/// Replacing a joined record by another with the same identifier keeps the
/// rooms list well-formed.
pub proof fn lemma_wf_update_entry(v: RoomsListView, i: int, entry: JoinedRoomInfo)
    requires
        rooms_list_wf(v),
        0 <= i < v.joined.len(),
        entry.room_id == v.joined[i].room_id,
    ensures
        rooms_list_wf(RoomsListView { joined: v.joined.update(i, entry), ..v }),
{
    let v2 = RoomsListView { joined: v.joined.update(i, entry), ..v };
    assert forall|k: int|
        0 <= k < v2.displayed_joined.len() implies has_joined(
        v2.joined,
        v2.displayed_joined[k],
    ) by {
        let w = joined_witness(v.joined, v.displayed_joined[k]);
        assert(v2.joined[w].room_id == v.joined[w].room_id);
    }
}

/// The well-formedness of the rooms list: room identifiers are unique
/// within the joined and within the invited collection, a room identifier
/// appears in at most one of the two, and each displayed-rooms list holds
/// distinct identifiers of rooms of its collection.
pub open spec fn rooms_list_wf(v: RoomsListView) -> bool {
    &&& forall|i: int, j: int|
        0 <= i < j < v.joined.len() ==> v.joined[i].room_id != v.joined[j].room_id
    &&& forall|i: int, j: int|
        0 <= i < j < v.invited.len() ==> v.invited[i].room_id != v.invited[j].room_id
    &&& forall|i: int, j: int|
        0 <= i < v.joined.len() && 0 <= j < v.invited.len() ==> v.joined[i].room_id
            != v.invited[j].room_id
    &&& forall|i: int, j: int|
        0 <= i < j < v.displayed_joined.len() ==> v.displayed_joined[i] != v.displayed_joined[j]
    &&& forall|i: int, j: int|
        0 <= i < j < v.displayed_invited.len() ==> v.displayed_invited[i]
            != v.displayed_invited[j]
    &&& forall|i: int|
        0 <= i < v.displayed_joined.len() ==> has_joined(v.joined, v.displayed_joined[i])
    &&& forall|i: int|
        0 <= i < v.displayed_invited.len() ==> has_invited(v.invited, v.displayed_invited[i])
}

/// The status kind that the rooms-count status derivation produces: when
/// the maximum number of rooms is known, loading is complete exactly when
/// the count reaches it; otherwise the label reports the count as loaded.
pub open spec fn count_status_kind(n: nat, max: Option<u32>) -> StatusKind {
    match max {
        Some(m) => if n == m as nat {
            StatusKind::Loaded
        } else {
            StatusKind::Loading
        },
        None => StatusKind::Loaded,
    }
}

/// The decimal digit for one value below ten.
pub open spec fn dec_digit(d: nat) -> char {
    if d == 0 {
        '0'
    } else if d == 1 {
        '1'
    } else if d == 2 {
        '2'
    } else if d == 3 {
        '3'
    } else if d == 4 {
        '4'
    } else if d == 5 {
        '5'
    } else if d == 6 {
        '6'
    } else if d == 7 {
        '7'
    } else if d == 8 {
        '8'
    } else {
        '9'
    }
}

/// The decimal digit string of a number, most significant digit first.
pub open spec fn dec_str(n: nat) -> Seq<char>
    decreases n,
{
    if n < 10 {
        seq![dec_digit(n)]
    } else {
        dec_str(n / 10).push(dec_digit(n % 10))
    }
}

/// The rooms-count message when the maximum number of rooms is known.
pub open spec fn loaded_of_message(n: nat, m: nat) -> Seq<char> {
    "Loaded "@ + dec_str(n) + " of "@ + dec_str(m) + " total rooms."@
}

/// The rooms-count message when the maximum number of rooms is unknown.
pub open spec fn loaded_message(n: nat) -> Seq<char> {
    "Loaded "@ + dec_str(n) + " rooms."@
}

/// Whether this status label reports the rooms count exactly.
pub open spec fn count_status_message(status: RoomsCollectionStatus, n: nat, max: Option<
    u32,
>) -> bool {
    &&& status_kind(status) == count_status_kind(n, max)
    &&& match max {
        Some(m) => status_message(status) == loaded_of_message(n, m as nat),
        None => status_message(status) == loaded_message(n),
    }
}

/// Relies on u128's display implementation: the decimal digit string.
#[verifier::external_body]
fn u128_to_string(n: u128) -> (r: String)
    ensures
        r@ == dec_str(n as nat),
{
    format!("{}", n)
}

/// Re-derives the rooms-count component of a view after a change.
pub open spec fn with_count_status(v: RoomsListView) -> RoomsListView {
    RoomsListView {
        status: count_status_kind((v.joined.len() + v.invited.len()) as nat, v.max_known_rooms),
        ..v
    }
}

/// The view after adding an invited room: a fresh room is recorded and
/// displayed; a duplicate replaces the stale record and is reported as a
/// logic error; an identifier that is already joined is rejected, keeping
/// the invariant that a room is joined or invited, never both.
pub open spec fn add_invited_spec(v: RoomsListView, info: InvitedRoomInfo) -> RoomsListView {
    if has_joined(v.joined, info.room_id) {
        v
    } else if has_invited(v.invited, info.room_id) {
        RoomsListView { invited: v.invited.update(invited_index(v.invited, info.room_id), info), ..v }
    } else {
        RoomsListView {
            invited: v.invited.push(info),
            displayed_invited: v.displayed_invited.push(info.room_id),
            ..v
        }
    }
}

/// The view after adding a joined room: a fresh room is recorded and
/// displayed, a duplicate replaces the stale record; either way, a pending
/// invite for the same room is considered accepted and leaves the invited
/// collection.
pub open spec fn add_joined_spec(v: RoomsListView, info: JoinedRoomInfo) -> RoomsListView {
    let v1 = if has_joined(v.joined, info.room_id) {
        RoomsListView { joined: v.joined.update(joined_index(v.joined, info.room_id), info), ..v }
    } else {
        RoomsListView {
            joined: v.joined.push(info),
            displayed_joined: v.displayed_joined.push(info.room_id),
            ..v
        }
    };
    if has_invited(v1.invited, info.room_id) {
        RoomsListView {
            invited: v1.invited.remove(invited_index(v1.invited, info.room_id)),
            displayed_invited: remove_id(v1.displayed_invited, info.room_id),
            ..v1
        }
    } else {
        v1
    }
}

/// The view after removing a room: the joined record and its displayed
/// entry disappear; an unknown identifier changes nothing.
pub open spec fn remove_room_spec(v: RoomsListView, id: u64) -> RoomsListView {
    if has_joined(v.joined, id) {
        RoomsListView {
            joined: v.joined.remove(joined_index(v.joined, id)),
            displayed_joined: remove_id(v.displayed_joined, id),
            ..v
        }
    } else {
        v
    }
}

/// The view after one update is applied. This is the reference model of
/// `RoomsList::apply_update`.
pub open spec fn apply_update_spec(v: RoomsListView, u: RoomsListUpdate) -> RoomsListView {
    match u {
        RoomsListUpdate::NotLoaded => RoomsListView { status: StatusKind::Loading, ..v },
        RoomsListUpdate::LoadedRooms { max_rooms } => with_count_status(
            RoomsListView { max_known_rooms: max_rooms, ..v },
        ),
        RoomsListUpdate::AddInvitedRoom(info) => with_count_status(add_invited_spec(v, info)),
        RoomsListUpdate::AddJoinedRoom(info) => with_count_status(add_joined_spec(v, info)),
        RoomsListUpdate::ClearRooms => with_count_status(
            RoomsListView {
                invited: Seq::empty(),
                joined: Seq::empty(),
                displayed_invited: Seq::empty(),
                displayed_joined: Seq::empty(),
                ..v
            },
        ),
        RoomsListUpdate::UpdateLatestEvent { room_id, timestamp, latest_message_text } => if has_joined(
            v.joined,
            room_id,
        ) {
            let i = joined_index(v.joined, room_id);
            RoomsListView {
                joined: v.joined.update(
                    i,
                    JoinedRoomInfo { latest: Some((timestamp, latest_message_text)), ..v.joined[i] },
                ),
                ..v
            }
        } else {
            v
        },
        RoomsListUpdate::UpdateNumUnreadMessages { room_id, count, unread_mentions } => if has_joined(
            v.joined,
            room_id,
        ) {
            let i = joined_index(v.joined, room_id);
            let counts = match count {
                UnreadMessageCount::Unknown => (0u64, 0u64),
                UnreadMessageCount::Known(c) => (c, unread_mentions),
            };
            RoomsListView {
                joined: v.joined.update(
                    i,
                    JoinedRoomInfo {
                        num_unread_messages: counts.0,
                        num_unread_mentions: counts.1,
                        ..v.joined[i]
                    },
                ),
                ..v
            }
        } else {
            v
        },
        RoomsListUpdate::UpdateRoomName { room_id, new_room_name } => if has_joined(
            v.joined,
            room_id,
        ) {
            let i = joined_index(v.joined, room_id);
            RoomsListView {
                joined: v.joined.update(
                    i,
                    JoinedRoomInfo { room_name: Some(new_room_name), ..v.joined[i] },
                ),
                ..v
            }
        } else {
            v
        },
        RoomsListUpdate::RemoveRoom { room_id, .. } => with_count_status(
            remove_room_spec(v, room_id),
        ),
        RoomsListUpdate::Tags { room_id, new_tags } => if has_joined(v.joined, room_id) {
            let i = joined_index(v.joined, room_id);
            RoomsListView {
                joined: v.joined.update(i, JoinedRoomInfo { tags: new_tags, ..v.joined[i] }),
                ..v
            }
        } else {
            v
        },
        RoomsListUpdate::Status { status } => RoomsListView { status: status_kind(status), ..v },
    }
}

/// The view after a whole sequence of updates, applied in arrival order.
pub open spec fn apply_updates_spec(v: RoomsListView, us: Seq<RoomsListUpdate>) -> RoomsListView
    decreases us.len(),
{
    if us.len() == 0 {
        v
    } else {
        apply_updates_spec(apply_update_spec(v, us[0]), us.drop_first())
    }
}

/// The loading state of the backend's room list service, as reported over
/// its dedicated stream.
#[derive(Clone, Copy, Debug, PartialEq, Eq, Structural)]
pub enum RoomListLoadingState {
    /// The room list has not been loaded yet.
    NotLoaded,
    /// Rooms were loaded, and the server optionally told us the maximum
    /// number of rooms that will ever be loaded.
    Loaded {
        /// The maximum number of rooms, if the server knows it.
        maximum_number_of_rooms: Option<u32>,
    },
}

/// The rooms-list update that one loading-state change asks for.
pub fn loading_state_update(state: RoomListLoadingState) -> (u: RoomsListUpdate)
    ensures
        state is NotLoaded ==> u is NotLoaded,
        state matches RoomListLoadingState::Loaded { maximum_number_of_rooms } ==> u matches
            RoomsListUpdate::LoadedRooms { max_rooms } && max_rooms == maximum_number_of_rooms,
{
    match state {
        RoomListLoadingState::NotLoaded => RoomsListUpdate::NotLoaded,
        RoomListLoadingState::Loaded { maximum_number_of_rooms } => RoomsListUpdate::LoadedRooms {
            max_rooms: maximum_number_of_rooms,
        },
    }
}

/// Enqueues a rooms-list update and raises the refresh signal so the UI
/// loop wakes up and handles it. Whether the raise reached a subscriber is
/// reported to the caller instead of terminating anything.
pub fn enqueue_rooms_list_update(
    queue: &mut RoomsUpdateQueue,
    broadcaster: &Broadcaster,
    update: RoomsListUpdate,
) -> (delivered: bool)
    ensures
        final(queue)@ == old(queue)@.push(update),
{
    queue.push(update);
    match broadcast_event(broadcaster, UIUpdateMessage::RefreshUI) {
        Ok(_) => true,
        Err(_) => false,
    }
}

/// The single list of all rooms: the UI-facing model that the drained
/// updates are applied to.
pub struct RoomsList {
    /// The rooms the user has been invited to.
    pub invited_rooms: Vec<InvitedRoomInfo>,
    /// The set of all joined rooms and their cached preview info.
    pub all_joined_rooms: Vec<JoinedRoomInfo>,
    /// The invited rooms currently displayed, top to bottom.
    pub displayed_invited_rooms: Vec<u64>,
    /// The joined rooms currently displayed, top to bottom.
    pub displayed_joined_rooms: Vec<u64>,
    /// The latest status message for the bottom status label.
    pub status: RoomsCollectionStatus,
    /// The currently selected room, if any.
    pub current_active_room: Option<u64>,
    /// The maximum number of rooms that will ever be loaded, if known.
    pub max_known_rooms: Option<u32>,
}

impl View for RoomsList {
    type V = RoomsListView;

    /// The mathematical model of this rooms list.
    open spec fn view(&self) -> RoomsListView {
        RoomsListView {
            invited: self.invited_rooms@,
            joined: self.all_joined_rooms@,
            displayed_invited: self.displayed_invited_rooms@,
            displayed_joined: self.displayed_joined_rooms@,
            status: status_kind(self.status),
            current_active_room: self.current_active_room,
            max_known_rooms: self.max_known_rooms,
        }
    }
}

/// Finds the position of a joined room by its identifier.
fn find_joined(rooms: &Vec<JoinedRoomInfo>, room_id: u64) -> (r: Option<usize>)
    ensures
        match r {
            Some(i) => i < rooms@.len() && rooms@[i as int].room_id == room_id,
            None => !has_joined(rooms@, room_id),
        },
{
    let mut i: usize = 0;
    while i < rooms.len()
        invariant
            i <= rooms@.len(),
            forall|k: int| 0 <= k < i ==> rooms@[k].room_id != room_id,
        decreases rooms@.len() - i,
    {
        if rooms[i].room_id == room_id {
            return Some(i);
        }
        i = i + 1;
    }
    None
}

/// Finds the position of an invited room by its identifier.
fn find_invited(rooms: &Vec<InvitedRoomInfo>, room_id: u64) -> (r: Option<usize>)
    ensures
        match r {
            Some(i) => i < rooms@.len() && rooms@[i as int].room_id == room_id,
            None => !has_invited(rooms@, room_id),
        },
{
    let mut i: usize = 0;
    while i < rooms.len()
        invariant
            i <= rooms@.len(),
            forall|k: int| 0 <= k < i ==> rooms@[k].room_id != room_id,
        decreases rooms@.len() - i,
    {
        if rooms[i].room_id == room_id {
            return Some(i);
        }
        i = i + 1;
    }
    None
}

/// Finds the position of an identifier in a displayed-rooms list.
fn find_id(ids: &Vec<u64>, room_id: u64) -> (r: Option<usize>)
    ensures
        match r {
            Some(i) => i < ids@.len() && ids@[i as int] == room_id,
            None => !has_id(ids@, room_id),
        },
{
    let mut i: usize = 0;
    while i < ids.len()
        invariant
            i <= ids@.len(),
            forall|k: int| 0 <= k < i ==> ids@[k] != room_id,
        decreases ids@.len() - i,
    {
        if ids[i] == room_id {
            return Some(i);
        }
        i = i + 1;
    }
    None
}

impl RoomsList {
    /// An empty rooms list, before anything has been loaded.
    pub fn new() -> (r: RoomsList)
        ensures
            r@.invited == Seq::<InvitedRoomInfo>::empty(),
            r@.joined == Seq::<JoinedRoomInfo>::empty(),
            r@.displayed_invited == Seq::<u64>::empty(),
            r@.displayed_joined == Seq::<u64>::empty(),
            r@.status is NotLoaded,
            r@.current_active_room is None,
            r@.max_known_rooms is None,
            rooms_list_wf(r@),
    {
        RoomsList {
            invited_rooms: Vec::new(),
            all_joined_rooms: Vec::new(),
            displayed_invited_rooms: Vec::new(),
            displayed_joined_rooms: Vec::new(),
            status: RoomsCollectionStatus::NotLoaded("Initiating".to_owned()),
            current_active_room: None,
            max_known_rooms: None,
        }
    }

    /// Re-derives the bottom status label from the number of loaded rooms:
    /// the message reports the count exactly, and loading counts as
    /// complete exactly when the count reaches the known maximum.
    fn update_status_rooms_count(&mut self)
        ensures
            final(self).invited_rooms == old(self).invited_rooms,
            final(self).all_joined_rooms == old(self).all_joined_rooms,
            final(self).displayed_invited_rooms == old(self).displayed_invited_rooms,
            final(self).displayed_joined_rooms == old(self).displayed_joined_rooms,
            final(self).current_active_room == old(self).current_active_room,
            final(self).max_known_rooms == old(self).max_known_rooms,
            count_status_message(
                final(self).status,
                (old(self).all_joined_rooms@.len() + old(self).invited_rooms@.len()) as nat,
                old(self).max_known_rooms,
            ),
    {
        let num_rooms: u128 = self.all_joined_rooms.len() as u128 + self.invited_rooms.len()
            as u128;
        let num_str: String = u128_to_string(num_rooms);
        proof {
            reveal_strlit("Loaded ");
            reveal_strlit(" of ");
            reveal_strlit(" total rooms.");
            reveal_strlit(" rooms.");
        }
        match self.max_known_rooms {
            Some(max_rooms) => {
                let max_str: String = u128_to_string(max_rooms as u128);
                let mut message: String = "Loaded ".to_owned();
                message.append(num_str.as_str());
                message.append(" of ");
                message.append(max_str.as_str());
                message.append(" total rooms.");
                proof {
                    assert(message@ =~= loaded_of_message(
                        num_rooms as nat,
                        max_rooms as nat,
                    ));
                }
                self.status = if num_rooms == max_rooms as u128 {
                    RoomsCollectionStatus::Loaded(message)
                } else {
                    RoomsCollectionStatus::Loading(message)
                };
            }
            None => {
                let mut message: String = "Loaded ".to_owned();
                message.append(num_str.as_str());
                message.append(" rooms.");
                proof {
                    assert(message@ =~= loaded_message(num_rooms as nat));
                }
                self.status = RoomsCollectionStatus::Loaded(message);
            }
        }
    }

    /// Records a new invited room: a fresh room is recorded and displayed;
    /// a duplicate replaces the stale record; an identifier that is already
    /// joined is rejected, keeping the invariant that a room is joined or
    /// invited, never both.
    fn add_invited(&mut self, info: InvitedRoomInfo)
        requires
            rooms_list_wf(old(self)@),
        ensures
            rooms_list_wf(final(self)@),
            final(self)@ == add_invited_spec(old(self)@, info),
            final(self).status == old(self).status,
    {
        let room_id: u64 = info.room_id;
        if find_joined(&self.all_joined_rooms, room_id).is_some() {
            return ;
        }
        match find_invited(&self.invited_rooms, room_id) {
            Some(i) => {
                // A stale record for an already-known invite is replaced: a
                // logic error on the producer side.
                self.invited_rooms.remove(i);
                self.invited_rooms.insert(i, info);
                proof {
                    assert(self.invited_rooms@ =~= old(self).invited_rooms@.update(
                        i as int,
                        info,
                    ));
                    assert(i as int == invited_index(old(self)@.invited, room_id));
                    let v0 = old(self)@;
                    let v2 = self@;
                    assert forall|k: int|
                        0 <= k < v2.displayed_invited.len() implies has_invited(
                        v2.invited,
                        v2.displayed_invited[k],
                    ) by {
                        let w = invited_witness(v0.invited, v0.displayed_invited[k]);
                        assert(v2.invited[w].room_id == v0.invited[w].room_id);
                    }
                    assert(self@ =~= add_invited_spec(old(self)@, info));
                }
            }
            None => {
                self.invited_rooms.push(info);
                self.displayed_invited_rooms.push(room_id);
                proof {
                    let v0 = old(self)@;
                    let v2 = self@;
                    assert forall|k: int|
                        0 <= k < v2.displayed_invited.len() implies has_invited(
                        v2.invited,
                        v2.displayed_invited[k],
                    ) by {
                        if k < v0.displayed_invited.len() {
                            let w = invited_witness(v0.invited, v0.displayed_invited[k]);
                            assert(v2.invited[w] == v0.invited[w]);
                        } else {
                            assert(v2.invited[v0.invited.len() as int] == info);
                        }
                    }
                    assert forall|k: int|
                        0 <= k < v2.displayed_joined.len() implies has_joined(
                        v2.joined,
                        v2.displayed_joined[k],
                    ) by {
                        let w = joined_witness(v0.joined, v0.displayed_joined[k]);
                        assert(v2.joined[w] == v0.joined[w]);
                    }
                    assert(self@ =~= add_invited_spec(old(self)@, info));
                }
            }
        }
    }

    /// Records a new joined room: a fresh room is recorded and displayed, a
    /// duplicate replaces the stale record; either way, a pending invite
    /// for the same room counts as accepted and leaves the invited
    /// collections.
    fn add_joined(&mut self, info: JoinedRoomInfo)
        requires
            rooms_list_wf(old(self)@),
        ensures
            rooms_list_wf(final(self)@),
            final(self)@ == add_joined_spec(old(self)@, info),
            final(self).status == old(self).status,
    {
        let room_id: u64 = info.room_id;
        let ghost v0 = old(self)@;
        match find_joined(&self.all_joined_rooms, room_id) {
            Some(i) => {
                // A stale record for an already-known room is replaced: a
                // logic error on the producer side.
                self.all_joined_rooms.remove(i);
                self.all_joined_rooms.insert(i, info);
                proof {
                    assert(self.all_joined_rooms@ =~= v0.joined.update(i as int, info));
                    assert(i as int == joined_index(v0.joined, room_id));
                }
            }
            None => {
                self.all_joined_rooms.push(info);
                self.displayed_joined_rooms.push(room_id);
            }
        }
        let ghost v1 = self@;
        proof {
            assert forall|k: int|
                0 <= k < v1.displayed_joined.len() implies has_joined(
                v1.joined,
                v1.displayed_joined[k],
            ) by {
                if k < v0.displayed_joined.len() {
                    let w = joined_witness(v0.joined, v0.displayed_joined[k]);
                    assert(v1.joined[w] == v0.joined[w] || v1.joined[w] == v1.joined[w]);
                    assert(v1.joined[w].room_id == v0.joined[w].room_id);
                } else {
                    assert(v1.joined[v0.joined.len() as int] == info);
                }
            }
            assert forall|k: int|
                0 <= k < v1.displayed_invited.len() implies has_invited(
                v1.invited,
                v1.displayed_invited[k],
            ) by {
                let w = invited_witness(v0.invited, v0.displayed_invited[k]);
                assert(v1.invited[w] == v0.invited[w]);
            }
        }
        // If this room was added because an invite was accepted, the
        // invite leaves the invited collections.
        if let Some(j) = find_invited(&self.invited_rooms, room_id) {
            self.invited_rooms.remove(j);
            proof {
                assert(j as int == invited_index(v1.invited, room_id));
            }
            if let Some(k) = find_id(&self.displayed_invited_rooms, room_id) {
                self.displayed_invited_rooms.remove(k);
                proof {
                    assert(k as int == id_index(v1.displayed_invited, room_id));
                }
            }
            proof {
                let v2 = self@;
                assert forall|k: int|
                    0 <= k < v2.displayed_invited.len() implies has_invited(
                    v2.invited,
                    v2.displayed_invited[k],
                ) by {
                    let id = v2.displayed_invited[k];
                    let kk: int = if has_id(v1.displayed_invited, room_id) && k >= id_index(
                        v1.displayed_invited,
                        room_id,
                    ) {
                        k + 1
                    } else {
                        k
                    };
                    assert(v1.displayed_invited[kk] == id);
                    assert(id != room_id);
                    let w = invited_witness(v1.invited, id);
                    let jj = invited_index(v1.invited, room_id);
                    if w < jj {
                        assert(v2.invited[w] == v1.invited[w]);
                    } else {
                        assert(v2.invited[w - 1] == v1.invited[w]);
                    }
                }
                assert(self@ =~= add_joined_spec(old(self)@, info));
            }
        } else {
            proof {
                assert(self@ =~= add_joined_spec(old(self)@, info));
            }
        }
    }

    /// Takes a removed room out of the joined records and out of the
    /// displayed list; an unknown identifier changes nothing.
    fn remove_room_entry(&mut self, room_id: u64)
        requires
            rooms_list_wf(old(self)@),
        ensures
            rooms_list_wf(final(self)@),
            final(self)@ == remove_room_spec(old(self)@, room_id),
            final(self).status == old(self).status,
    {
        let ghost v0 = old(self)@;
        if let Some(i) = find_joined(&self.all_joined_rooms, room_id) {
            self.all_joined_rooms.remove(i);
            proof {
                assert(i as int == joined_index(v0.joined, room_id));
            }
            if let Some(k) = find_id(&self.displayed_joined_rooms, room_id) {
                self.displayed_joined_rooms.remove(k);
                proof {
                    assert(k as int == id_index(v0.displayed_joined, room_id));
                }
            }
            proof {
                let v2 = self@;
                assert forall|k: int|
                    0 <= k < v2.displayed_joined.len() implies has_joined(
                    v2.joined,
                    v2.displayed_joined[k],
                ) by {
                    let id = v2.displayed_joined[k];
                    let kk: int = if has_id(v0.displayed_joined, room_id) && k >= id_index(
                        v0.displayed_joined,
                        room_id,
                    ) {
                        k + 1
                    } else {
                        k
                    };
                    assert(v0.displayed_joined[kk] == id);
                    assert(id != room_id);
                    let w = joined_witness(v0.joined, id);
                    let ii = joined_index(v0.joined, room_id);
                    if w < ii {
                        assert(v2.joined[w] == v0.joined[w]);
                    } else {
                        assert(v2.joined[w - 1] == v0.joined[w]);
                    }
                }
                assert forall|k: int|
                    0 <= k < v2.displayed_invited.len() implies has_invited(
                    v2.invited,
                    v2.displayed_invited[k],
                ) by {
                    let w = invited_witness(v0.invited, v0.displayed_invited[k]);
                    assert(v2.invited[w] == v0.invited[w]);
                }
                assert(self@ =~= remove_room_spec(old(self)@, room_id));
            }
        }
    }

    /// Applies one update to the rooms list. The list afterwards is exactly
    /// the reference model's; the invariant that a room identifier is
    /// joined or invited, never both, is preserved; and whenever the update
    /// re-derives the rooms-count status, the label's message reports the
    /// new count exactly.
    pub fn apply_update(&mut self, update: RoomsListUpdate)
        requires
            rooms_list_wf(old(self)@),
        ensures
            rooms_list_wf(final(self)@),
            final(self)@ == apply_update_spec(old(self)@, update),
            (update is AddInvitedRoom || update is AddJoinedRoom || update is ClearRooms
                || update is RemoveRoom || update is LoadedRooms) ==> count_status_message(
                final(self).status,
                (final(self)@.joined.len() + final(self)@.invited.len()) as nat,
                final(self)@.max_known_rooms,
            ),
    {
        match update {
            RoomsListUpdate::NotLoaded => {
                self.status = RoomsCollectionStatus::Loading(
                    "Loading rooms (waiting for homeserver)...".to_owned(),
                );
            }
            RoomsListUpdate::LoadedRooms { max_rooms } => {
                self.max_known_rooms = max_rooms;
                self.update_status_rooms_count();
            }
            RoomsListUpdate::AddInvitedRoom(info) => {
                self.add_invited(info);
                self.update_status_rooms_count();
            }
            RoomsListUpdate::AddJoinedRoom(info) => {
                self.add_joined(info);
                self.update_status_rooms_count();
            }
            RoomsListUpdate::ClearRooms => {
                self.all_joined_rooms.clear();
                self.displayed_joined_rooms.clear();
                self.invited_rooms.clear();
                self.displayed_invited_rooms.clear();
                self.update_status_rooms_count();
            }
            RoomsListUpdate::UpdateLatestEvent { room_id, timestamp, latest_message_text } => {
                if let Some(i) = find_joined(&self.all_joined_rooms, room_id) {
                    proof {
                        assert(i as int == joined_index(old(self)@.joined, room_id));
                    }
                    let mut entry: JoinedRoomInfo = self.all_joined_rooms.remove(i);
                    self.all_joined_rooms.insert(i, JoinedRoomInfo {
                        latest: Some((timestamp, latest_message_text)),
                        ..entry
                    });
                    proof {
                        assert(self.all_joined_rooms@ =~= old(self)@.joined.update(
                            i as int,
                            self.all_joined_rooms@[i as int],
                        ));
                        lemma_wf_update_entry(
                            old(self)@,
                            i as int,
                            self.all_joined_rooms@[i as int],
                        );
                        assert(self@ =~= apply_update_spec(old(self)@, update));
                    }
                }
            }
            RoomsListUpdate::UpdateNumUnreadMessages { room_id, count, unread_mentions } => {
                if let Some(i) = find_joined(&self.all_joined_rooms, room_id) {
                    proof {
                        assert(i as int == joined_index(old(self)@.joined, room_id));
                    }
                    let mut entry: JoinedRoomInfo = self.all_joined_rooms.remove(i);
                    match count {
                        UnreadMessageCount::Unknown => {
                            entry.num_unread_messages = 0;
                            entry.num_unread_mentions = 0;
                        }
                        UnreadMessageCount::Known(c) => {
                            entry.num_unread_messages = c;
                            entry.num_unread_mentions = unread_mentions;
                        }
                    }
                    self.all_joined_rooms.insert(i, entry);
                    proof {
                        assert(self.all_joined_rooms@ =~= old(self)@.joined.update(
                            i as int,
                            self.all_joined_rooms@[i as int],
                        ));
                        lemma_wf_update_entry(
                            old(self)@,
                            i as int,
                            self.all_joined_rooms@[i as int],
                        );
                        assert(self@ =~= apply_update_spec(old(self)@, update));
                    }
                }
            }
            RoomsListUpdate::UpdateRoomName { room_id, new_room_name } => {
                if let Some(i) = find_joined(&self.all_joined_rooms, room_id) {
                    proof {
                        assert(i as int == joined_index(old(self)@.joined, room_id));
                    }
                    let mut entry: JoinedRoomInfo = self.all_joined_rooms.remove(i);
                    self.all_joined_rooms.insert(i, JoinedRoomInfo {
                        room_name: Some(new_room_name),
                        ..entry
                    });
                    proof {
                        assert(self.all_joined_rooms@ =~= old(self)@.joined.update(
                            i as int,
                            self.all_joined_rooms@[i as int],
                        ));
                        lemma_wf_update_entry(
                            old(self)@,
                            i as int,
                            self.all_joined_rooms@[i as int],
                        );
                        assert(self@ =~= apply_update_spec(old(self)@, update));
                    }
                }
            }
            RoomsListUpdate::RemoveRoom { room_id, new_state: _ } => {
                self.remove_room_entry(room_id);
                self.update_status_rooms_count();
            }
            RoomsListUpdate::Tags { room_id, new_tags } => {
                if let Some(i) = find_joined(&self.all_joined_rooms, room_id) {
                    proof {
                        assert(i as int == joined_index(old(self)@.joined, room_id));
                    }
                    let mut entry: JoinedRoomInfo = self.all_joined_rooms.remove(i);
                    self.all_joined_rooms.insert(i, JoinedRoomInfo { tags: new_tags, ..entry });
                    proof {
                        assert(self.all_joined_rooms@ =~= old(self)@.joined.update(
                            i as int,
                            self.all_joined_rooms@[i as int],
                        ));
                        lemma_wf_update_entry(
                            old(self)@,
                            i as int,
                            self.all_joined_rooms@[i as int],
                        );
                        assert(self@ =~= apply_update_spec(old(self)@, update));
                    }
                }
            }
            RoomsListUpdate::Status { status } => {
                self.status = status;
            }
        }
    }

    /// Handles all pending updates to the list of all rooms: drains the
    /// queue in arrival order and applies each update. Afterwards the queue
    /// is empty and the list equals the reference model folded over the
    /// drained updates; the returned flag says whether any update was
    /// handled, so the caller knows whether to push a presentation patch.
    pub fn handle_rooms_list_updates(&mut self, queue: &mut RoomsUpdateQueue) -> (any: bool)
        requires
            rooms_list_wf(old(self)@),
        ensures
            rooms_list_wf(final(self)@),
            final(queue)@.len() == 0,
            final(self)@ == apply_updates_spec(old(self)@, old(queue)@),
            any == (old(queue)@.len() > 0),
    {
        let mut any: bool = false;
        loop
            invariant
                rooms_list_wf(self@),
                apply_updates_spec(self@, queue@) == apply_updates_spec(old(self)@, old(queue)@),
                any == (queue@.len() < old(queue)@.len()),
                queue@.len() <= old(queue)@.len(),
            ensures
                queue@.len() == 0,
                rooms_list_wf(self@),
                apply_updates_spec(self@, queue@) == apply_updates_spec(old(self)@, old(queue)@),
                any == (old(queue)@.len() > 0),
            decreases queue@.len(),
        {
            match queue.pop() {
                Some(update) => {
                    self.apply_update(update);
                    any = true;
                }
                None => {
                    break ;
                }
            }
        }
        any
    }
}

} // verus!
