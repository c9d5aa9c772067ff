//! The locally persisted part of a client session.

use vstd::prelude::*;

verus! {

#[verifier::external_type_specification]
#[verifier::external_body]
/// The standard library's owned filesystem path, carried through opaquely.
pub struct ExPathBuf(std::path::PathBuf);

/// What this client needs to restore its local state: the homeserver, the
/// on-disk store and the passphrase protecting it.
#[derive(Debug)]
pub struct ClientSession {
    /// The homeserver the session belongs to.
    pub homeserver: String,
    /// Where the client's store lives on disk.
    pub db_path: std::path::PathBuf,
    /// The passphrase protecting the store.
    pub passphrase: String,
}

impl ClientSession {
    /// Bundles the locally persisted session parameters.
    pub fn new(homeserver: String, db_path: std::path::PathBuf, passphrase: String) -> (r:
        ClientSession)
        ensures
            r.homeserver == homeserver,
            r.db_path == db_path,
            r.passphrase == passphrase,
    {
        ClientSession { homeserver, db_path, passphrase }
    }
}

} // verus!
