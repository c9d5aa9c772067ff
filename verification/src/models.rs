//! Plain data types exchanged with the host shell and the UI layer.

pub mod matrix;
pub mod mobile;
pub mod notifications;
