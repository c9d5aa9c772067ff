//! The login-state store shown to the UI.

use vstd::prelude::*;

verus! {

/// Where the login flow currently stands.
#[derive(Clone, Copy, Debug, PartialEq, Eq, Structural)]
pub enum LoginState {
    /// The client is starting up.
    Initiating,
    /// A previous session was restored.
    Restored,
    /// Waiting for the user to log in.
    AwaitingForLogin,
    /// The user is logged in.
    LoggedIn,
}

impl LoginState {
    /// The state's name on the wire.
    pub fn as_str(&self) -> (r: &'static str)
        ensures
            *self is Initiating ==> r@ == "initiating"@,
            *self is Restored ==> r@ == "restored"@,
            *self is AwaitingForLogin ==> r@ == "awaitingForLogin"@,
            *self is LoggedIn ==> r@ == "loggedIn"@,
    {
        match self {
            LoginState::Initiating => "initiating",
            LoginState::Restored => "restored",
            LoginState::AwaitingForLogin => "awaitingForLogin",
            LoginState::LoggedIn => "loggedIn",
        }
    }
}

} // verus!
