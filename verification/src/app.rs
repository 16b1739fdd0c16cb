//! Settings shared by the authentication routes.

use vstd::prelude::*;

verus! {

/// Route prefix of the server's own pages.
pub const MOCK_SERVER_ROUTE: &'static str = "/mock-server";

/// Settings the authentication routes share: the token secret, the collection
/// that records issued tokens, and the name of the authentication cookie.
#[derive(Debug, Clone)]
pub struct GlobalSharedInfo {
    /// Secret that signs tokens.
    pub jwt_secret: String,
    /// Collection of issued tokens.
    pub token_collection: String,
    /// Name of the authentication cookie.
    pub auth_cookie_name: String,
}

impl Default for GlobalSharedInfo {
    fn default() -> (info: Self)
        ensures
            info.jwt_secret@.len() == 0,
            info.token_collection@.len() == 0,
            info.auth_cookie_name@.len() == 0,
    {
        GlobalSharedInfo {
            jwt_secret: String::new(),
            token_collection: String::new(),
            auth_cookie_name: String::new(),
        }
    }
}

} // verus!
