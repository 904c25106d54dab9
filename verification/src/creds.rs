//! The credential set that a run is started with.

use vstd::prelude::*;

verus! {

/// Account identity on the platform: the user name and the password that the
/// session is bound to.
pub struct LoginUser {
    pub username: String,
    pub password: String,
}

/// The full credential set: the account identity together with the
/// application identity (user-agent string, client id, client secret).
/// Inert data: it is loaded once, handed to the session, and never mutated.
pub struct Login {
    pub user: LoginUser,
    pub user_agent: String,
    pub client_id: String,
    pub client_secret: String,
}

} // verus!
