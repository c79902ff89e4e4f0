//! The names under which each credential is kept in the OS secret store.

use vstd::prelude::*;

verus! {

pub const ACCESS_TOKEN: &'static str = "access_token";

pub const REFRESH_TOKEN: &'static str = "refresh_token";

pub const TOKEN_EXPIRY: &'static str = "token_expiry";

pub const CUSTOM_CLIENT_ID: &'static str = "custom_client_id";

pub const CUSTOM_CLIENT_SECRET: &'static str = "custom_client_secret";

pub const PKCE_VERIFIER: &'static str = "pkce_verifier";

} // verus!
