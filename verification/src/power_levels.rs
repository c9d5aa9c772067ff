//! The powers that the logged-in user holds in a given room.
//!
//! The backend reports a power-level table for a room (one threshold per
//! action, plus the user's own power). This module resolves that table into
//! the set of actions the user may perform, which the UI consults to decide
//! which controls to show.

use vstd::prelude::*;

verus! {

/// A room's power-level table, resolved for one user: the user's own power
/// and the threshold that each action requires.
#[derive(Clone, Copy, Debug, PartialEq, Eq, Structural)]
pub struct RoomPowerLevelsSnapshot {
    /// The power of the user these levels are being resolved for.
    pub user_power: i64,
    /// Threshold for banning another user.
    pub ban: i64,
    /// Threshold for inviting a user.
    pub invite: i64,
    /// Threshold for kicking a user.
    pub kick: i64,
    /// Threshold for redacting other users' events.
    pub redact: i64,
    /// Threshold for notifying the whole room.
    pub notifications_room: i64,
    /// Threshold for sending a location message.
    pub location: i64,
    /// Threshold for sending a plain message event.
    pub message: i64,
    /// Threshold for sending a reaction.
    pub reaction: i64,
    /// Threshold for sending a room message event.
    pub room_message: i64,
    /// Threshold for redacting one's own room events.
    pub room_redaction: i64,
    /// Threshold for sending a sticker.
    pub sticker: i64,
    /// Threshold for pinning or unpinning room events.
    pub room_pinned_events: i64,
}

/// Whether every power is held.
pub open spec fn all_powers(p: UserPowerLevels) -> bool {
    p.ban && p.invite && p.kick && p.redact && p.notify_room && p.location && p.message
        && p.reaction && p.room_message && p.room_redaction && p.sticker && p.room_pinned_events
}

/// The set of actions a user is allowed to perform in a given room.
#[derive(Clone, Copy, Debug, PartialEq, Eq, Structural)]
pub struct UserPowerLevels {
    /// May ban users.
    pub ban: bool,
    /// May invite users.
    pub invite: bool,
    /// May kick users.
    pub kick: bool,
    /// May redact other users' events.
    pub redact: bool,
    /// May notify the whole room.
    pub notify_room: bool,
    /// May send location messages.
    pub location: bool,
    /// May send plain message events.
    pub message: bool,
    /// May send reactions.
    pub reaction: bool,
    /// May send room message events.
    pub room_message: bool,
    /// May redact own room events.
    pub room_redaction: bool,
    /// May send stickers.
    pub sticker: bool,
    /// May pin or unpin room events.
    pub room_pinned_events: bool,
}

impl UserPowerLevels {
    /// Resolves a power-level table into the set of allowed actions: each
    /// action is allowed exactly when the user's power reaches its threshold.
    pub fn from(power_levels: &RoomPowerLevelsSnapshot) -> (r: UserPowerLevels)
        ensures
            r.ban == (power_levels.user_power >= power_levels.ban),
            r.invite == (power_levels.user_power >= power_levels.invite),
            r.kick == (power_levels.user_power >= power_levels.kick),
            r.redact == (power_levels.user_power >= power_levels.redact),
            r.notify_room == (power_levels.user_power >= power_levels.notifications_room),
            r.location == (power_levels.user_power >= power_levels.location),
            r.message == (power_levels.user_power >= power_levels.message),
            r.reaction == (power_levels.user_power >= power_levels.reaction),
            r.room_message == (power_levels.user_power >= power_levels.room_message),
            r.room_redaction == (power_levels.user_power >= power_levels.room_redaction),
            r.sticker == (power_levels.user_power >= power_levels.sticker),
            r.room_pinned_events == (power_levels.user_power >= power_levels.room_pinned_events),
    {
        let p = power_levels.user_power;
        UserPowerLevels {
            ban: p >= power_levels.ban,
            invite: p >= power_levels.invite,
            kick: p >= power_levels.kick,
            redact: p >= power_levels.redact,
            notify_room: p >= power_levels.notifications_room,
            location: p >= power_levels.location,
            message: p >= power_levels.message,
            reaction: p >= power_levels.reaction,
            room_message: p >= power_levels.room_message,
            room_redaction: p >= power_levels.room_redaction,
            sticker: p >= power_levels.sticker,
            room_pinned_events: p >= power_levels.room_pinned_events,
        }
    }

    /// The full set of powers, assumed for a room until the real levels have
    /// been fetched, so that no UI element is hidden unexpectedly.
    pub fn all() -> (r: UserPowerLevels)
        ensures
            all_powers(r),
    {
        UserPowerLevels {
            ban: true,
            invite: true,
            kick: true,
            redact: true,
            notify_room: true,
            location: true,
            message: true,
            reaction: true,
            room_message: true,
            room_redaction: true,
            sticker: true,
            room_pinned_events: true,
        }
    }

    /// The empty set of powers.
    pub fn empty() -> (r: UserPowerLevels)
        ensures
            !r.ban && !r.invite && !r.kick && !r.redact && !r.notify_room && !r.location
                && !r.message && !r.reaction && !r.room_message && !r.room_redaction && !r.sticker
                && !r.room_pinned_events,
    {
        UserPowerLevels {
            ban: false,
            invite: false,
            kick: false,
            redact: false,
            notify_room: false,
            location: false,
            message: false,
            reaction: false,
            room_message: false,
            room_redaction: false,
            sticker: false,
            room_pinned_events: false,
        }
    }

    /// Whether the user may ban other users.
    pub fn can_ban(self) -> (r: bool)
        ensures
            r == self.ban,
    {
        self.ban
    }

    /// Whether the user may unban other users, which requires both the ban
    /// and the kick power.
    pub fn can_unban(self) -> (r: bool)
        ensures
            r == (self.ban && self.kick),
    {
        self.can_ban() && self.can_kick()
    }

    /// Whether the user may invite other users.
    pub fn can_invite(self) -> (r: bool)
        ensures
            r == self.invite,
    {
        self.invite
    }

    /// Whether the user may kick other users.
    pub fn can_kick(self) -> (r: bool)
        ensures
            r == self.kick,
    {
        self.kick
    }

    /// Whether the user may redact other users' events.
    pub fn can_redact(self) -> (r: bool)
        ensures
            r == self.redact,
    {
        self.redact
    }

    /// Whether the user may notify the whole room.
    pub fn can_notify_room(self) -> (r: bool)
        ensures
            r == self.notify_room,
    {
        self.notify_room
    }

    /// Whether the user may redact their own room events.
    pub fn can_redact_own(self) -> (r: bool)
        ensures
            r == self.room_redaction,
    {
        self.room_redaction
    }

    /// Whether the user may redact other users' room events, which requires
    /// both the own-redaction and the general redaction power.
    pub fn can_redact_others(self) -> (r: bool)
        ensures
            r == (self.room_redaction && self.redact),
    {
        self.can_redact_own() && self.redact
    }

    /// Whether the user may send location messages.
    pub fn can_send_location(self) -> (r: bool)
        ensures
            r == self.location,
    {
        self.location
    }

    /// Whether the user may send messages, through either message event kind.
    pub fn can_send_message(self) -> (r: bool)
        ensures
            r == (self.room_message || self.message),
    {
        self.room_message || self.message
    }

    /// Whether the user may send reactions.
    pub fn can_send_reaction(self) -> (r: bool)
        ensures
            r == self.reaction,
    {
        self.reaction
    }

    /// Whether the user may send stickers.
    pub fn can_send_sticker(self) -> (r: bool)
        ensures
            r == self.sticker,
    {
        self.sticker
    }

    /// Whether the user may pin or unpin room events.
    pub fn can_pin(self) -> (r: bool)
        ensures
            r == self.room_pinned_events,
    {
        self.room_pinned_events
    }
}

} // verus!
