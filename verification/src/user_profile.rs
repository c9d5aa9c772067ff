//! Information about a user, as shown in the UI.

use vstd::prelude::*;

verus! {

/// Information retrieved about a user: their displayable name, identifier,
/// and known avatar state.
#[derive(Clone, Debug)]
pub struct UserProfile {
    /// The user's identifier.
    pub user_id: String,
    /// The user's default display name, if set. A user may have per-room
    /// display names, so this is a fallback.
    pub username: Option<String>,
    /// The user's avatar reference, if any.
    pub avatar_url: Option<String>,
}

impl UserProfile {
    /// Returns the user's displayable name: the non-empty display name if
    /// there is one, and the user identifier otherwise.
    pub fn displayable_name(&self) -> (r: &str)
        ensures
            (match self.username {
                Option::Some(ref un) => un@.len() > 0,
                Option::None => false,
            }) ==> r@ == self.username->Some_0@,
            (match self.username {
                Option::Some(ref un) => un@.len() == 0,
                Option::None => true,
            }) ==> r@ == self.user_id@,
    {
        if let Some(un) = &self.username {
            if !un.as_str().is_empty() {
                return un.as_str();
            }
        }
        self.user_id.as_str()
    }
}

} // verus!
