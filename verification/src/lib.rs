//! A diff-reconciliation and timeline-synchronization core for a chat client.
//!
//! The backend delivers changes to its ordered collections (the room
//! directory, and one timeline per joined room) as batches of positional
//! diffs. This crate maintains locally mirrored copies of those collections,
//! performs the cache-invalidation bookkeeping that the UI layer needs,
//! coalesces redundant remove/insert diff pairs into cheaper update
//! operations, and drives the backward-search protocol that locates a target
//! event inside a timeline while it is being paginated incrementally.

use vstd::prelude::*;

pub mod diffs;
pub mod directory;
pub mod frontend_events;
pub mod invited_room;
pub mod login;
pub mod login_store;
pub mod message_details;
pub mod models;
pub mod notifications;
pub mod power_levels;
pub mod range_set;
pub mod room_screen;
pub mod rooms;
pub mod rooms_list;
pub mod session;
pub mod signals;
pub mod stronghold;
pub mod timeline;
pub mod update_queue;
pub mod user_profile;
pub mod utils;

verus! {

/// Static configuration handed to the plugin at startup.
pub struct PluginConfig {
    stronghold_password: String,
}

impl View for PluginConfig {
    type V = Seq<char>;

    /// A configuration is modelled by the vault password it carries.
    closed spec fn view(&self) -> Seq<char> {
        self.stronghold_password@
    }
}

impl PluginConfig {
    /// Wraps the vault password read from the host configuration.
    pub fn new(stronghold_password: String) -> (r: PluginConfig)
        ensures
            r@ == stronghold_password@,
    {
        PluginConfig { stronghold_password }
    }

    /// The password that protects the credential vault.
    pub fn stronghold_password(&self) -> (r: &String)
        ensures
            r@ == self@,
    {
        &self.stronghold_password
    }
}

} // verus!
