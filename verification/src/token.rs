//! Confirmation tokens and the links that carry them.
//!
//! A token is an unguessable random string issued at submission time; a
//! subscriber is promoted to confirmed only when the token comes back
//! through the confirmation link built here.

use vstd::prelude::*;
use vstd::string::StringExecFns;

verus! {

/// Relies on uuid's `Uuid::new_v4` and its simple formatting: a fresh
/// identifier drawn from a cryptographically secure random source,
/// rendered as 32 lower-case hexadecimal characters.
#[verifier::external_body]
fn random_token_string() -> (r: String)
    ensures
        r@.len() == 32,
{
    uuid::Uuid::new_v4().simple().to_string()
}

/// Issues a fresh confirmation token: 32 characters from a
/// cryptographically secure random source, derived from no predictable
/// input.
pub fn generate() -> (r: String)
    ensures
        r@.len() == 32,
{
    random_token_string()
}

/// Builds the confirmation link for `token`: the well-known confirmation
/// endpoint under `base_url`, with the token as its query parameter.
pub fn confirmation_link(base_url: &str, token: &str) -> (r: String)
    ensures
        r@ == base_url@ + "/subscriptions/confirm?token="@ + token@,
{
    let mut link = String::from_str(base_url);
    link.append("/subscriptions/confirm?token=");
    link.append(token);
    link
}

} // verus!
