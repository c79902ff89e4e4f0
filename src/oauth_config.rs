//! Custom OAuth client credentials: what is reported of them, and the
//! checks and writes that saving or clearing them takes.

use vstd::prelude::*;
use vstd::string::*;
use crate::text::{contains, contains_text};
use crate::keychain::{CredentialKey, StoreOp};

verus! {

/// The suffix that every valid client id holds.
pub const CLIENT_ID_SUFFIX: &'static str = ".apps.googleusercontent.com";

pub const INVALID_CLIENT_ID: &'static str = "Invalid client ID format. It should end with .apps.googleusercontent.com";

/// What is reported of the configured credentials; the secret itself never
/// leaves the store.
#[derive(Debug, Clone)]
pub struct OAuthConfig {
    pub use_custom: bool,
    pub client_id: Option<String>,
    pub has_client_secret: bool,
}

pub open spec fn is_nonempty(v: Option<Seq<char>>) -> bool {
    match v {
        Some(s) => s.len() > 0,
        None => false,
    }
}

fn nonempty(v: &Option<String>) -> (r: bool)
    ensures
        r == is_nonempty(v.deep_view()),
{
    match v {
        Some(s) => s.as_str().unicode_len() > 0,
        None => false,
    }
}

/// The report for a stored custom client id and secret: custom credentials
/// are in use when the id is non-empty.
pub fn oauth_config_from(client_id: Option<String>, client_secret: Option<String>) -> (r: OAuthConfig)
    ensures
        r.use_custom == is_nonempty(client_id.deep_view()),
        r.client_id.deep_view() == client_id.deep_view(),
        r.has_client_secret == is_nonempty(client_secret.deep_view()),
{
    let use_custom = nonempty(&client_id);
    let has_client_secret = nonempty(&client_secret);
    OAuthConfig { use_custom, client_id, has_client_secret }
}

/// The writes that save a custom client id and secret, once the id passes
/// the format check: it must hold the client id suffix.
pub fn save_oauth_writes(client_id: String, client_secret: String) -> (r: Result<Vec<StoreOp>, String>)
    ensures
        contains_text(client_id@, CLIENT_ID_SUFFIX@) ==> (r matches Ok(w) && w@.len() == 2
            && w@[0] == StoreOp::Put(CredentialKey::CustomClientId, client_id)
            && w@[1] == StoreOp::Put(CredentialKey::CustomClientSecret, client_secret)),
        !contains_text(client_id@, CLIENT_ID_SUFFIX@) ==> (r matches Err(e) && e@ == INVALID_CLIENT_ID@),
{
    if !contains(client_id.as_str(), CLIENT_ID_SUFFIX) {
        return Err(String::from_str(INVALID_CLIENT_ID));
    }
    let mut writes: Vec<StoreOp> = Vec::new();
    writes.push(StoreOp::Put(CredentialKey::CustomClientId, client_id));
    writes.push(StoreOp::Put(CredentialKey::CustomClientSecret, client_secret));
    Ok(writes)
}

/// The writes that drop the custom credentials, reverting to the default.
pub fn clear_oauth_writes() -> (r: Vec<StoreOp>)
    ensures
        r@.len() == 2,
        r@[0] == StoreOp::Remove(CredentialKey::CustomClientId),
        r@[1] == StoreOp::Remove(CredentialKey::CustomClientSecret),
{
    let mut writes: Vec<StoreOp> = Vec::new();
    writes.push(StoreOp::Remove(CredentialKey::CustomClientId));
    writes.push(StoreOp::Remove(CredentialKey::CustomClientSecret));
    writes
}

} // verus!
