//! The locations recorded between two instants: the reply.

use crate::resp::{error, is_reply, ok, Reply, STATUS_INTERNAL_ERROR, STATUS_OK};
use vstd::prelude::*;

verus! {

/// Why the locations in a time range could not be had.
#[derive(Debug, PartialEq, Eq)]
pub enum LocationsInRangeError {
    /// The database query failed; the text says why.
    Sqlx(String),
}

/// The reply of the range endpoint: the entries found, or a failure.
pub fn locations_in_range_reply<T>(r: Result<Vec<T>, LocationsInRangeError>) -> (reply: Reply<Vec<T>>)
    ensures
        r matches Ok(v) ==> is_reply(reply, STATUS_OK, "success"@, Some(v)),
        r is Err ==> is_reply(reply, STATUS_INTERNAL_ERROR, "location range query failed"@, None),
{
    match r {
        Ok(data) => ok("success", Some(data)),
        Err(_) => error("location range query failed"),
    }
}

} // verus!
