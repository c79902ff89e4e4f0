//! The texts of failed requests: a fixed context, then what went wrong,
//! with the remote body or transport error carried verbatim.

use vstd::prelude::*;
use vstd::string::*;

verus! {

pub const EXCHANGE_REQUEST_FAILED: &'static str = "Failed to exchange code";

pub const EXCHANGE_REJECTED: &'static str = "Token exchange failed";

pub const REFRESH_REQUEST_FAILED: &'static str = "Failed to refresh token";

pub const REFRESH_REJECTED: &'static str = "Token refresh failed";

pub const TOKEN_RESPONSE_UNREADABLE: &'static str = "Failed to parse token response";

pub const REQUEST_FAILED: &'static str = "Request failed";

pub const API_ERROR: &'static str = "API error";

pub const UPLOAD_FAILED: &'static str = "Upload failed";

pub const RESPONSE_UNREADABLE: &'static str = "Failed to parse response";

/// The error text `context: detail`.
pub fn failure(context: &str, detail: &str) -> (r: String)
    ensures
        r@ == context@ + ": "@ + detail@,
{
    let mut text = String::from_str(context);
    text.append(": ");
    text.append(detail);
    text
}

} // verus!
