use matrix_svelte::power_levels::{RoomPowerLevelsSnapshot, UserPowerLevels};

fn snapshot(user_power: i64) -> RoomPowerLevelsSnapshot {
    RoomPowerLevelsSnapshot {
        user_power,
        ban: 50,
        invite: 0,
        kick: 50,
        redact: 50,
        notifications_room: 50,
        location: 0,
        message: 0,
        reaction: 0,
        room_message: 0,
        room_redaction: 0,
        sticker: 0,
        room_pinned_events: 50,
    }
}

#[test]
fn powers_follow_the_thresholds() {
    let ordinary = UserPowerLevels::from(&snapshot(0));
    assert!(!ordinary.can_ban());
    assert!(!ordinary.can_kick());
    assert!(!ordinary.can_unban());
    assert!(ordinary.can_invite());
    assert!(ordinary.can_send_message());
    assert!(ordinary.can_send_reaction());
    assert!(ordinary.can_send_sticker());
    assert!(ordinary.can_send_location());
    assert!(ordinary.can_redact_own());
    assert!(!ordinary.can_redact_others());
    assert!(!ordinary.can_notify_room());
    assert!(!ordinary.can_pin());

    let moderator = UserPowerLevels::from(&snapshot(50));
    assert!(moderator.can_ban());
    assert!(moderator.can_kick());
    assert!(moderator.can_unban());
    assert!(moderator.can_redact());
    assert!(moderator.can_redact_others());
    assert!(moderator.can_notify_room());
    assert!(moderator.can_pin());
}

#[test]
fn all_and_empty_are_the_two_extremes() {
    let everything = UserPowerLevels::all();
    assert!(everything.can_ban() && everything.can_unban() && everything.can_pin());
    assert!(everything.can_send_message());

    let nothing = UserPowerLevels::empty();
    assert!(!nothing.can_ban() && !nothing.can_invite() && !nothing.can_send_message());
}

#[test]
fn unban_requires_both_ban_and_kick() {
    let mut only_ban = UserPowerLevels::empty();
    only_ban.ban = true;
    assert!(only_ban.can_ban());
    assert!(!only_ban.can_unban());
    only_ban.kick = true;
    assert!(only_ban.can_unban());
}

#[test]
fn sending_messages_goes_through_either_message_kind() {
    let mut p = UserPowerLevels::empty();
    p.message = true;
    assert!(p.can_send_message());
    let mut q = UserPowerLevels::empty();
    q.room_message = true;
    assert!(q.can_send_message());
}
