//! The latest known location: how a stored row becomes the answer, and the
//! reply.

use crate::resp::{error, is_reply, ok, Reply, STATUS_INTERNAL_ERROR, STATUS_OK};
use vstd::prelude::*;

verus! {

/// Key under which the latest location is cached.
pub const CACHE_KEY: &'static str = "geo_latest_pos";

/// How long the latest location stays cached: thirty minutes, in seconds.
pub const LATEST_CACHE_TTL_SECS: u64 = 1800;

/// Why the latest location could not be had.
#[derive(Debug, PartialEq, Eq)]
pub enum LatestLocationError {
    /// The stored location is not a GeoJSON document; the text says why.
    Serde(String),
    /// The database query failed; the text says why.
    Sqlx(String),
}

/// What to do after asking the database for the newest stored location.
pub enum LatestStep<G> {
    /// The lookup is over, with this outcome.
    Done(Result<Option<G>, LatestLocationError>),
    /// Parse this stored text as GeoJSON; cache and return what it gives.
    Parse(String),
}

/// The step after the database answered: a failed query or an empty table
/// ends the lookup, a stored row is to be parsed.
pub fn after_row<G>(row: Result<Option<String>, LatestLocationError>) -> (step: LatestStep<G>)
    ensures
        row matches Err(e) ==> step == LatestStep::<G>::Done(Err(e)),
        row matches Ok(None) ==> step == LatestStep::<G>::Done(Ok(None)),
        row matches Ok(Some(text)) ==> (step matches LatestStep::Parse(t) && t@ == text@),
{
    match row {
        Err(e) => LatestStep::Done(Err(e)),
        Ok(None) => LatestStep::Done(Ok(None)),
        Ok(Some(text)) => LatestStep::Parse(text),
    }
}

/// The reply of the latest-location endpoint: the location, `no_data` when
/// none is stored, or a failure.
pub fn latest_location_reply<G>(r: Result<Option<G>, LatestLocationError>) -> (reply: Reply<G>)
    ensures
        r matches Ok(Some(g)) ==> is_reply(reply, STATUS_OK, "success"@, Some(g)),
        r matches Ok(None) ==> is_reply(reply, STATUS_OK, "no_data"@, None),
        r is Err ==> is_reply(reply, STATUS_INTERNAL_ERROR, "failed to query latest location"@, None),
{
    match r {
        Ok(None) => ok("no_data", None),
        Ok(Some(location)) => ok("success", Some(location)),
        Err(_) => error("failed to query latest location"),
    }
}

} // verus!
