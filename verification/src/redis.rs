//! How the cache is reached: the connection URL and the timeouts.

use crate::config::Redis;
use crate::text::{decimal, decimal_spec, digits_value, law_decimal_reads_back};
use vstd::prelude::*;
use vstd::string::StringExecFns;

verus! {

/// How long connecting to the cache may take, in seconds.
pub const CONNECTION_TIMEOUT_SECS: u64 = 30;

/// How long an answer from the cache may take, in seconds.
pub const RESPONSE_TIMEOUT_SECS: u64 = 5;

/// The connection URL of the cache: `redis://{host}:{port}`.
pub open spec fn redis_url_spec(cfg: Redis) -> Seq<char> {
    "redis://"@ + cfg.host@ + ":"@ + decimal_spec(cfg.port as nat)
}

/// The cache URL is `redis://`, the host itself, `:`, and the digits of the
/// port, which read back as the port.
pub proof fn law_redis_url_names_host_and_port(cfg: Redis)
    ensures
        ({
            let u = redis_url_spec(cfg);
            let h = cfg.host@;
            &&& u.subrange(0, 8) == "redis://"@
            &&& u.subrange(8, 8int + h.len()) == h
            &&& u[8int + h.len()] == ':'
            &&& digits_value(u.subrange(9int + h.len(), u.len() as int)) == cfg.port
        }),
{
    reveal_strlit("redis://");
    reveal_strlit(":");
    let u = redis_url_spec(cfg);
    let h = cfg.host@;
    let d = decimal_spec(cfg.port as nat);
    law_decimal_reads_back(cfg.port as nat);
    assert(u =~= "redis://"@ + h + ":"@ + d);
    assert(u.subrange(0, 8) =~= "redis://"@);
    assert(u.subrange(8, 8int + h.len()) =~= h);
    assert(u.subrange(9int + h.len(), u.len() as int) =~= d);
}

/// Builds the connection URL of the cache.
pub fn redis_url(cfg: &Redis) -> (url: String)
    ensures
        url@ == redis_url_spec(*cfg),
{
    let mut url = String::from_str("redis://");
    url.append(cfg.host.as_str());
    url.append(":");
    let port = decimal(cfg.port as u64);
    url.append(port.as_str());
    url
}

} // verus!
