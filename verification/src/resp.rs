//! The service's JSON reply: an HTTP status, a message and optional data.

use vstd::prelude::*;
use vstd::string::StringExecFns;

verus! {

/// HTTP status of a successful reply.
pub const STATUS_OK: u16 = 200;

/// HTTP status of a reply for something that could not be found.
pub const STATUS_NOT_FOUND: u16 = 404;

/// HTTP status of a reply for a failure inside the service.
pub const STATUS_INTERNAL_ERROR: u16 = 500;

/// A reply of the service: `status` is the HTTP status, and the body is the
/// JSON object `{"message": message, "data": data}`.
pub struct Reply<T> {
    pub status: u16,
    pub message: String,
    pub data: Option<T>,
}

/// `r` is the reply with this status, message and data.
pub open spec fn is_reply<T>(r: Reply<T>, status: u16, message: Seq<char>, data: Option<T>) -> bool {
    &&& r.status == status
    &&& r.message@ == message
    &&& r.data == data
}

/// A reply described by `is_reply` has exactly that status, that message and
/// that data, and any two replies it describes agree on all three.
pub proof fn law_reply_is_what_it_says<T>(r: Reply<T>, q: Reply<T>, status: u16, message: Seq<char>, data: Option<T>)
    ensures
        is_reply(r, status, message, data) ==> r.status == status && r.message@ == message && r.data
            == data,
        r.status == status && r.message@ == message && r.data == data ==> is_reply(r, status, message, data),
        is_reply(r, status, message, data) && is_reply(q, status, message, data) ==> r.status
            == q.status && r.message@ == q.message@ && r.data == q.data,
{
}

/// A successful reply carrying `data`.
pub fn ok<T>(message: &str, data: Option<T>) -> (r: Reply<T>)
    ensures
        is_reply(r, STATUS_OK, message@, data),
{
    Reply { status: STATUS_OK, message: String::from_str(message), data }
}

/// A reply for a failure inside the service; it carries no data.
pub fn error<T>(message: &str) -> (r: Reply<T>)
    ensures
        is_reply(r, STATUS_INTERNAL_ERROR, message@, None),
{
    Reply { status: STATUS_INTERNAL_ERROR, message: String::from_str(message), data: None }
}

/// A reply for something that could not be found; it carries no data.
pub fn not_found<T>(message: &str) -> (r: Reply<T>)
    ensures
        is_reply(r, STATUS_NOT_FOUND, message@, None),
{
    Reply { status: STATUS_NOT_FOUND, message: String::from_str(message), data: None }
}

/// A failure reply whose message is `prefix` followed by `detail`.
pub fn error_with_detail<T>(prefix: &str, detail: &str) -> (r: Reply<T>)
    ensures
        is_reply(r, STATUS_INTERNAL_ERROR, prefix@ + detail@, None),
{
    let mut message = String::from_str(prefix);
    message.append(detail);
    Reply { status: STATUS_INTERNAL_ERROR, message, data: None }
}

/// The reply for a read of the shared cache, when it can answer the request:
/// a cached value is served as is; a missing value, or a failed read, is a
/// miss (`None`), after which the handler fetches the value itself.
pub fn cache_hit_reply<T, E>(read: Result<Option<T>, E>) -> (r: Option<Reply<T>>)
    ensures
        read matches Ok(Some(v)) ==> (r matches Some(reply) && is_reply(reply, STATUS_OK, "success"@, Some(v))),
        !(read is Ok && read->Ok_0 is Some) ==> r is None,
{
    match read {
        Ok(Some(v)) => Some(ok("success", Some(v))),
        _ => None,
    }
}

/// What a cache-first handler does after reading its cache.
pub enum CacheStep<T> {
    /// Nothing usable was cached: fetch the value from upstream.
    Fetch,
    /// Answer with this reply.
    Answer(Reply<T>),
}

/// The step after reading a key-value cache: a cached value is served as is,
/// a missing value is fetched, and a failed read is answered with a failure.
pub fn after_kv_read<T, E>(read: Result<Option<T>, E>) -> (step: CacheStep<T>)
    ensures
        read matches Ok(Some(v)) ==> (step matches CacheStep::Answer(r) && is_reply(
            r,
            STATUS_OK,
            "success"@,
            Some(v),
        )),
        read matches Ok(None) ==> step is Fetch,
        read is Err ==> (step matches CacheStep::Answer(r) && is_reply(
            r,
            STATUS_INTERNAL_ERROR,
            "error while getting from seer_cache"@,
            None,
        )),
{
    match read {
        Ok(Some(v)) => CacheStep::Answer(ok("success", Some(v))),
        Ok(None) => CacheStep::Fetch,
        Err(_) => CacheStep::Answer(error("error while getting from seer_cache")),
    }
}

} // verus!
