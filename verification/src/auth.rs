//! Who may call the service: the bearer token must equal the fixed secret.

use crate::resp::{error, is_reply, Reply, STATUS_INTERNAL_ERROR};
use crate::text::same_text;
use vstd::prelude::*;

verus! {

/// Whether a presented bearer token is the service's fixed secret.
pub fn is_authorized(fixed_auth: &str, token: &str) -> (r: bool)
    ensures
        r == (fixed_auth@ == token@),
{
    same_text(fixed_auth, token)
}

/// The reply to a caller whose token is refused.
pub fn refused<T>() -> (r: Reply<T>)
    ensures
        is_reply(r, STATUS_INTERNAL_ERROR, "service authorization failed"@, None),
{
    error("service authorization failed")
}

} // verus!
