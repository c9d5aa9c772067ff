//! Payloads of the push-notification registration flow.

use vstd::prelude::*;

verus! {

/// A request for the device's push-notification token.
#[derive(Clone, Copy, Debug)]
pub struct GetTokenRequest {}

/// The device's push-notification token.
#[derive(Clone, Debug)]
pub struct GetTokenResponse {
    /// The token handed out by the platform.
    pub token: String,
}

/// The outcome of registering a push-notification watcher.
#[derive(Clone, Copy, Debug)]
pub struct WatchNotificationResult {
    /// Whether the watcher was registered.
    pub success: bool,
}

} // verus!
