//! Current air pollution: which reading is kept from OpenWeatherMap's answer,
//! and the reply.

use crate::resp::{error, is_reply, not_found, ok, Reply, STATUS_INTERNAL_ERROR, STATUS_NOT_FOUND, STATUS_OK};
use vstd::prelude::*;

verus! {

/// Key under which the current pollution reading is cached.
pub const CACHE_KEY: &'static str = "seer:weather:pollution";

/// How long the current pollution reading stays cached: one hour, in seconds.
pub const POLLUTION_CACHE_TTL_SECS: u64 = 3600;

/// The API action that gives the current air pollution.
pub const ACTION: &'static str = "air_pollution";

/// Why the current pollution could not be had.
#[derive(Debug, PartialEq, Eq)]
pub enum PollutionError {
    /// The request failed; the text says why.
    Reqwest(String),
}

/// The reading kept from the answer's list: the first one, if any.
pub fn first_reading<T>(list: Vec<T>) -> (r: Option<T>)
    ensures
        list@.len() == 0 ==> r is None,
        list@.len() > 0 ==> r == Some(list@[0]),
{
    let mut list = list;
    if list.len() == 0 {
        None
    } else {
        Some(list.remove(0))
    }
}

/// The reply once the pollution has been queried: the reading, "not found"
/// when the answer held none, or a failure.
pub fn after_pollution_query<T>(r: Result<Option<T>, PollutionError>) -> (reply: Reply<T>)
    ensures
        r matches Ok(Some(p)) ==> is_reply(reply, STATUS_OK, "success"@, Some(p)),
        r matches Ok(None) ==> is_reply(reply, STATUS_NOT_FOUND, "pollution data not found"@, None),
        r is Err ==> is_reply(reply, STATUS_INTERNAL_ERROR, "failed to fetch current pollution"@, None),
{
    match r {
        Ok(Some(p)) => ok("success", Some(p)),
        Ok(None) => not_found("pollution data not found"),
        Err(_) => error("failed to fetch current pollution"),
    }
}

} // verus!
