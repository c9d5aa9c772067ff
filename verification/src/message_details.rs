//! What the user may do with one message, as the context menu shows it.

use vstd::prelude::*;

use crate::power_levels::UserPowerLevels;

verus! {

/// The actions available on one message, used to decide which buttons the
/// message's context menu shows.
#[derive(Clone, Copy, Debug, PartialEq, Eq, Structural)]
pub struct MessageAbilities {
    /// The user can react to this message.
    pub can_react: bool,
    /// The user can reply to this message.
    pub can_reply_to: bool,
    /// The user can edit this message.
    pub can_edit: bool,
    /// The user can pin this message.
    pub can_pin: bool,
    /// The user can delete or redact this message.
    pub can_delete: bool,
    /// This message carries hypertext content that can be copied.
    pub has_html: bool,
}

impl MessageAbilities {
    /// Decides the available actions from the user's powers and the
    /// message's own nature. Only one's own messages can be deleted.
    pub fn from_user_power_and_event(
        user_power_levels: &UserPowerLevels,
        is_editable: bool,
        is_own: bool,
        can_be_replied_to: bool,
        has_html: bool,
    ) -> (r: MessageAbilities)
        ensures
            r.can_edit == is_editable,
            r.can_delete == (is_own && user_power_levels.room_redaction),
            r.can_reply_to == can_be_replied_to,
            r.can_pin == user_power_levels.room_pinned_events,
            r.can_react == user_power_levels.reaction,
            r.has_html == has_html,
    {
        MessageAbilities {
            can_react: user_power_levels.can_send_reaction(),
            can_reply_to: can_be_replied_to,
            can_edit: is_editable,
            can_pin: user_power_levels.can_pin(),
            can_delete: is_own && user_power_levels.can_redact_own(),
            has_html,
        }
    }
}

/// Details about one message that define its context menu: its identity,
/// its position in the timeline, and what may be done with it.
#[derive(Clone, Copy, Debug, PartialEq, Eq)]
pub struct MessageDetails {
    /// The event's identifier; absent for an unsent local event.
    pub event_id: Option<u64>,
    /// The index of this message in its room's timeline.
    pub item_id: usize,
    /// The event this message relates to, such as a replied-to message.
    pub related_event_id: Option<u64>,
    /// The actions available on this message.
    pub abilities: MessageAbilities,
}

} // verus!
