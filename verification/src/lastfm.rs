//! What is playing now, from Last.fm: the request, which track is kept, and
//! the reply.

use crate::resp::{error_with_detail, is_reply, ok, Reply, STATUS_INTERNAL_ERROR, STATUS_OK};
use vstd::prelude::*;
use vstd::string::StringExecFns;

verus! {

/// Name of the setting that holds the Last.fm API key.
pub const SECRET_KEY: &'static str = "LASTFM_KEY";

/// Key under which the track playing now is cached.
pub const CACHE_KEY: &'static str = "lastfm_now_playing";

/// Where Last.fm's API is served.
pub const API_BASE_URL: &'static str = "http://ws.audioscrobbler.com/2.0/";

/// How long the track playing now stays cached: one minute, in seconds.
pub const NOW_PLAYING_CACHE_TTL_SECS: u64 = 60;

/// A track in Last.fm's list of recent tracks.
#[derive(Debug, PartialEq, Eq)]
pub struct TrackNode {
    pub name: String,
    pub url: String,
    pub artist: ArtistNode,
    pub image: Vec<ImageNode>,
}

/// The artist of a track.
#[derive(Debug, PartialEq, Eq)]
pub struct ArtistNode {
    pub text: String,
}

/// A picture of a track, in one size.
#[derive(Debug, PartialEq, Eq)]
pub struct ImageNode {
    pub size: String,
    pub text: String,
}

/// Why the track playing now could not be had.
#[derive(Debug, PartialEq, Eq)]
pub enum NowPlayingError {
    /// The list of recent tracks is empty.
    NoRecentTracks,
    /// The request failed; the text is the `Debug` text of the HTTP error.
    Reqwest(String),
}

/// The `Debug` text of a request failure, as `#[derive(Debug)]` writes it.
pub open spec fn now_playing_error_debug(e: NowPlayingError) -> Seq<char> {
    match e {
        NowPlayingError::NoRecentTracks => "NoRecentTracks"@,
        NowPlayingError::Reqwest(d) => "Reqwest("@ + d@ + ")"@,
    }
}

impl NowPlayingError {
    /// The `Debug` text of this error (the failure reply quotes it).
    pub fn debug_text(&self) -> (s: String)
        ensures
            s@ == now_playing_error_debug(*self),
    {
        match self {
            NowPlayingError::NoRecentTracks => String::from_str("NoRecentTracks"),
            NowPlayingError::Reqwest(d) => {
                let mut t = String::from_str("Reqwest(");
                t.append(d.as_str());
                t.append(")");
                t
            },
        }
    }
}

/// The query string that asks Last.fm for the single most recent track of
/// the service's user, as JSON.
pub fn recent_tracks_query(api_key: &str) -> (q: Vec<(String, String)>)
    ensures
        q@.len() == 5,
        q@[0].0@ == "method"@ && q@[0].1@ == "user.getRecentTracks"@,
        q@[1].0@ == "user"@ && q@[1].1@ == "jacobandersen_"@,
        q@[2].0@ == "api_key"@ && q@[2].1@ == api_key@,
        q@[3].0@ == "format"@ && q@[3].1@ == "json"@,
        q@[4].0@ == "limit"@ && q@[4].1@ == "1"@,
{
    let mut q: Vec<(String, String)> = Vec::new();
    q.push((String::from_str("method"), String::from_str("user.getRecentTracks")));
    q.push((String::from_str("user"), String::from_str("jacobandersen_")));
    q.push((String::from_str("api_key"), String::from_str(api_key)));
    q.push((String::from_str("format"), String::from_str("json")));
    q.push((String::from_str("limit"), String::from_str("1")));
    q
}

/// The track playing now: the first of the recent tracks, or
/// `NoRecentTracks` when there is none.
pub fn first_track(tracks: Vec<TrackNode>) -> (r: Result<TrackNode, NowPlayingError>)
    ensures
        tracks@.len() == 0 ==> r == Err::<TrackNode, NowPlayingError>(NowPlayingError::NoRecentTracks),
        tracks@.len() > 0 ==> r == Ok::<TrackNode, NowPlayingError>(tracks@[0]),
{
    let mut tracks = tracks;
    if tracks.len() == 0 {
        Err(NowPlayingError::NoRecentTracks)
    } else {
        Ok(tracks.remove(0))
    }
}

/// The reply once the track has been fetched: the track; no reply data when
/// nothing was played; otherwise a failure quoting the error.
pub fn now_playing_reply(fetched: Result<TrackNode, NowPlayingError>) -> (reply: Reply<TrackNode>)
    ensures
        fetched matches Ok(t) ==> is_reply(reply, STATUS_OK, "success"@, Some(t)),
        fetched == Err::<TrackNode, NowPlayingError>(NowPlayingError::NoRecentTracks) ==> is_reply(
            reply,
            STATUS_OK,
            "success"@,
            None,
        ),
        fetched matches Err(e) ==> (e != NowPlayingError::NoRecentTracks ==> is_reply(
            reply,
            STATUS_INTERNAL_ERROR,
            "error while fetching now_playing state: "@ + now_playing_error_debug(e),
            None,
        )),
{
    match fetched {
        Ok(t) => ok("success", Some(t)),
        Err(NowPlayingError::NoRecentTracks) => ok("success", None),
        Err(e) => {
            let d = e.debug_text();
            error_with_detail("error while fetching now_playing state: ", d.as_str())
        },
    }
}

} // verus!
