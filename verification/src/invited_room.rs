//! Rooms the user has been invited to but has not joined.

use vstd::prelude::*;

verus! {

/// The state of a pending invite.
#[derive(Clone, Copy, Debug, PartialEq, Eq, Structural)]
pub enum InviteState {
    /// Waiting for the user to accept or decline the invite.
    WaitingOnUserInput,
    /// Waiting for the server to respond to the user's "join room" action.
    WaitingForJoinResult,
    /// Waiting for the server to respond to the user's "leave room" action.
    WaitingForLeaveResult,
    /// The invite was accepted and the room was successfully joined; the
    /// joined room has not arrived from the homeserver yet.
    WaitingForJoinedRoom,
    /// The invite was declined and the room was successfully left.
    RoomLeft,
}

impl Default for InviteState {
    /// A fresh invite waits for the user's decision.
    fn default() -> (r: InviteState)
        ensures
            r is WaitingOnUserInput,
    {
        InviteState::WaitingOnUserInput
    }
}

/// Info about the user who sent an invite.
#[derive(Clone, Debug)]
pub struct InviterInfo {
    /// The inviter's user identifier.
    pub user_id: String,
    /// The inviter's displayable name, if known.
    pub display_name: Option<String>,
    /// The inviter's avatar reference, if any.
    pub avatar: Option<String>,
}

/// UI-related info about a room the user has been invited to.
#[derive(Clone, Debug)]
pub struct InvitedRoomInfo {
    /// The room's opaque identifier.
    pub room_id: u64,
    /// The displayable name of this room, if known.
    pub room_name: Option<String>,
    /// The canonical alias for this room, if any.
    pub canonical_alias: Option<String>,
    /// The alternative aliases for this room.
    pub alt_aliases: Vec<String>,
    /// The avatar reference for this room, if any.
    pub room_avatar: Option<String>,
    /// Info about the user who invited us, if available.
    pub inviter_info: Option<InviterInfo>,
    /// The timestamp and rendered text of the latest message, if any.
    pub latest: Option<(u64, String)>,
    /// How this invite is being handled.
    pub invite_state: InviteState,
    /// Whether this room is currently selected in the UI.
    pub is_selected: bool,
    /// Whether this is an invite to a direct room.
    pub is_direct: bool,
}

} // verus!
