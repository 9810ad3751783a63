//! Weather at the latest known location, from OpenWeatherMap: the request it
//! makes, and the steps a weather request goes through.

pub mod conditions;
pub mod pollution;

use crate::geo::util::{coords_readable_spec, extract_coords, extracted, Coords, GeoShape};
use crate::resp::{cache_hit_reply, error, is_reply, Reply, STATUS_INTERNAL_ERROR, STATUS_OK};
use vstd::prelude::*;
use vstd::string::StringExecFns;

verus! {

/// Name of the setting that holds the OpenWeatherMap API key.
pub const SECRET_KEY: &'static str = "OPENWEATHER_KEY";

/// Where OpenWeatherMap's API is served.
pub const OPENWEATHER_BASE_URL: &'static str = "https://api.openweathermap.org/data/2.5/";

/// The URL of an API action, in metric units:
/// `{OPENWEATHER_BASE_URL}/{action}?units=metric`.
pub open spec fn weather_url(action: Seq<char>) -> Seq<char> {
    "https://api.openweathermap.org/data/2.5/"@ + "/"@ + action + "?units=metric"@
}

/// The URL names the action asked for: right after the base URL and a `/`
/// stands the action itself, followed by `?units=metric`; so different
/// actions always get different URLs.
pub proof fn law_weather_url_names_the_action(a: Seq<char>, b: Seq<char>)
    ensures
        weather_url(a).len() == 40 + 1 + a.len() + 13,
        weather_url(a).subrange(0, 40) == "https://api.openweathermap.org/data/2.5/"@,
        weather_url(a)[40] == '/',
        weather_url(a).subrange(41, 41int + a.len()) == a,
        weather_url(a).subrange(41int + a.len(), 54int + a.len()) == "?units=metric"@,
        weather_url(a) == weather_url(b) ==> a == b,
{
    reveal_strlit("https://api.openweathermap.org/data/2.5/");
    reveal_strlit("/");
    reveal_strlit("?units=metric");
    let base = "https://api.openweathermap.org/data/2.5/"@;
    let tail = "?units=metric"@;
    assert(weather_url(a) =~= base + "/"@ + a + tail);
    assert(weather_url(a).subrange(0, 40) =~= base);
    assert(weather_url(a).subrange(41, 41int + a.len()) =~= a);
    assert(weather_url(a).subrange(41int + a.len(), 54int + a.len()) =~= tail);
    assert(weather_url(b) =~= base + "/"@ + b + tail);
    if weather_url(a) == weather_url(b) {
        assert(weather_url(b).subrange(41, 41int + b.len()) =~= b);
    }
}

/// Builds the URL of an API action.
pub fn build_url(action: &str) -> (url: String)
    ensures
        url@ == weather_url(action@),
{
    let mut url = String::from_str(OPENWEATHER_BASE_URL);
    url.append("/");
    url.append(action);
    url.append("?units=metric");
    url
}

/// The query string of a request at a position: the API key as `appid`, and
/// the latitude and longitude (as the caller wrote them) as `lat` and `lon`.
pub fn location_query(key: &str, lat: String, lon: String) -> (q: Vec<(String, String)>)
    ensures
        q@.len() == 3,
        q@[0].0@ == "appid"@ && q@[0].1@ == key@,
        q@[1].0@ == "lat"@ && q@[1].1@ == lat@,
        q@[2].0@ == "lon"@ && q@[2].1@ == lon@,
{
    let mut q: Vec<(String, String)> = Vec::new();
    q.push((String::from_str("appid"), String::from_str(key)));
    q.push((String::from_str("lat"), lat));
    q.push((String::from_str("lon"), lon));
    q
}

/// Which weather report a request is for.
#[derive(Debug, Clone, Copy, PartialEq, Eq)]
pub enum Report {
    Conditions,
    Pollution,
}

/// What a weather request does next.
pub enum WeatherStep<P, T> {
    /// Nothing usable was cached: look up the latest known location.
    LookUpLocation,
    /// Query OpenWeatherMap at this position.
    Query(Coords<P>),
    /// Answer with this reply.
    Answer(Reply<T>),
}

/// The step after reading the cache: cached data answers the request; a
/// miss, or a failed read, leads to the location lookup.
pub fn after_cache_read<P, T, E>(read: Result<Option<T>, E>) -> (step: WeatherStep<P, T>)
    ensures
        read matches Ok(Some(v)) ==> (step matches WeatherStep::Answer(r) && is_reply(
            r,
            STATUS_OK,
            "success"@,
            Some(v),
        )),
        !(read is Ok && read->Ok_0 is Some) ==> step is LookUpLocation,
{
    match cache_hit_reply(read) {
        Some(r) => WeatherStep::Answer(r),
        None => WeatherStep::LookUpLocation,
    }
}

/// The failure message when no location is stored.
pub open spec fn no_location_message(report: Report) -> Seq<char> {
    match report {
        Report::Conditions => "no location available for weather query"@,
        Report::Pollution => "no location available for pollution query"@,
    }
}

/// The failure for a missing location names the report asked for: weather
/// for the conditions, pollution for the air.
pub proof fn law_no_location_message_names_the_report(report: Report)
    ensures
        report == Report::Conditions ==> no_location_message(report)
            == "no location available for weather query"@,
        report == Report::Pollution ==> no_location_message(report)
            == "no location available for pollution query"@,
{
}

/// The step after the latest location has been looked up: a failed lookup,
/// a missing location or a document without a readable position is answered
/// with a failure; otherwise the report is queried at that position.
pub fn after_location<P: Copy, T, E>(report: Report, location: Result<Option<GeoShape<P>>, E>) -> (step: WeatherStep<P, T>)
    requires
        location matches Ok(Some(g)) ==> coords_readable_spec(g),
    ensures
        location is Err ==> (step matches WeatherStep::Answer(r) && is_reply(
            r,
            STATUS_INTERNAL_ERROR,
            "could not get latest location"@,
            None,
        )),
        location matches Ok(None) ==> (step matches WeatherStep::Answer(r) && is_reply(
            r,
            STATUS_INTERNAL_ERROR,
            no_location_message(report),
            None,
        )),
        location matches Ok(Some(g)) ==> match extracted(g) {
            Some(c) => step == WeatherStep::<P, T>::Query(c),
            None => (step matches WeatherStep::Answer(r) && is_reply(
                r,
                STATUS_INTERNAL_ERROR,
                "unable to extract coords from the latest location"@,
                None,
            )),
        },
{
    match location {
        Err(_) => WeatherStep::Answer(error("could not get latest location")),
        Ok(None) => match report {
            Report::Conditions => WeatherStep::Answer(error("no location available for weather query")),
            Report::Pollution => WeatherStep::Answer(error("no location available for pollution query")),
        },
        Ok(Some(g)) => match extract_coords(g) {
            None => WeatherStep::Answer(error("unable to extract coords from the latest location")),
            Some(c) => WeatherStep::Query(c),
        },
    }
}

} // verus!
