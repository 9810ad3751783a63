//! Current weather conditions: the reply once OpenWeatherMap has answered.

use crate::resp::{error, is_reply, ok, Reply, STATUS_INTERNAL_ERROR, STATUS_OK};
use vstd::prelude::*;

verus! {

/// Key under which the current conditions are cached.
pub const CACHE_KEY: &'static str = "seer:weather:conditions";

/// How long the current conditions stay cached: one hour, in seconds.
pub const CONDITIONS_CACHE_TTL_SECS: u64 = 3600;

/// The API action that gives the current conditions.
pub const ACTION: &'static str = "weather";

/// Why the current conditions could not be had.
#[derive(Debug, PartialEq, Eq)]
pub enum WeatherError {
    /// The request failed; the text says why.
    Reqwest(String),
}

/// The reply once the conditions have been queried: the conditions, or a
/// failure.
pub fn after_conditions_query<T>(r: Result<T, WeatherError>) -> (reply: Reply<T>)
    ensures
        r matches Ok(c) ==> is_reply(reply, STATUS_OK, "success"@, Some(c)),
        r is Err ==> is_reply(reply, STATUS_INTERNAL_ERROR, "failed to query weather"@, None),
{
    match r {
        Ok(c) => ok("success", Some(c)),
        Err(_) => error("failed to query weather"),
    }
}

} // verus!
