//! Login configuration and requests.

use vstd::prelude::*;

use crate::stronghold::utils::BytesDto;

verus! {

/// What a login attempt needs to know about the account and the server.
#[derive(Clone, Debug)]
pub struct MatrixClientConfig {
    /// The account's user name.
    pub username: String,
    /// The account's password.
    pub password: String,
    /// The homeserver to log in against.
    pub homeserver_url: String,
    /// The name this client registers under.
    pub client_name: String,
}

impl MatrixClientConfig {
    /// Bundles the login parameters.
    pub fn new(
        username: String,
        password: String,
        homeserver_url: String,
        client_name: String,
    ) -> (r: MatrixClientConfig)
        ensures
            r.username == username,
            r.password == password,
            r.homeserver_url == homeserver_url,
            r.client_name == client_name,
    {
        MatrixClientConfig { username, password, homeserver_url, client_name }
    }
}

/// Details of a login request submitted by the login command.
pub enum LoginRequest {
    /// Log in with a user name and password.
    LoginByPassword(MatrixClientConfig),
}

/// The key under which the client's session is stored in the credential
/// vault.
pub fn get_stronghold_client_key() -> (r: BytesDto)
    ensures
        r matches BytesDto::Text(t) && t@ == "matrix_session"@,
{
    BytesDto::Text("matrix_session".to_owned())
}

} // verus!
