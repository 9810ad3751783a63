//! The service's settings, how a binding address is written, and which
//! settings are refused at start-up.

use crate::outside::{is_url, pattern_found, regex_search, url_accepted};
use crate::text::{decimal, decimal_spec, digits_value, join2, law_decimal_reads_back};
use vstd::prelude::*;
use vstd::string::StringExecFns;

verus! {

/// The pattern a binding IP must contain: a dotted quad of numbers up to 255.
pub const RE_IPV4: &'static str = r"(\b25[0-5]|\b2[0-4][0-9]|\b[01]?[0-9][0-9]?)(\.(25[0-5]|2[0-4][0-9]|[01]?[0-9][0-9]?)){3}";

/// The largest Redis database number.
pub const MAX_REDIS_DBNO: u8 = 15;

/// All settings of the service.
#[derive(Debug)]
pub struct SeerConfig {
    /// Server binding settings
    pub binding: Binding,
    /// The hardcover API key
    pub hardcover_key: String,
    /// The lastfm API key
    pub lastfm_key: String,
    /// The openweathermap API key
    pub openweather_key: String,
    /// The fixed auth string that other services must specify in order
    /// to call Seer
    pub fixed_auth: String,
    /// The telemetry configuration, which enables reporting traces to OTel
    pub telemetry: Telemetry,
    /// The redis configuration which enables caching
    pub redis: Redis,
    /// The db configuration for data storage
    pub db: Db,
}

/// Where the server listens.
#[derive(Debug)]
pub struct Binding {
    /// The IP to bind to
    pub ip: String,
    /// The port to bind to
    pub port: u16,
}

/// Whether and where traces and logs are shipped.
#[derive(Debug)]
pub struct Telemetry {
    /// Whether to use OTel
    pub enable: bool,
    /// Where to ship OTel junk
    pub otel_exporter_endpoint: String,
}

/// How to reach the cache.
#[derive(Debug)]
pub struct Redis {
    /// The redis host
    pub host: String,
    /// The redis port
    pub port: u16,
    /// The redis username
    pub username: String,
    /// The redis password
    pub password: String,
    /// Which redis database to use (0-15)
    pub dbno: u8,
}

/// How to reach the database.
#[derive(Debug)]
pub struct Db {
    /// The database host
    pub host: String,
    /// The database port
    pub port: u16,
    /// The database username
    pub username: String,
    /// The database password
    pub password: String,
    /// The database name
    pub database: String,
}

/// A setting that start-up refuses.
#[derive(Debug, Clone, Copy, PartialEq, Eq)]
pub enum ConfigViolation {
    /// `binding.ip` does not contain an IPv4 address.
    BindingIp,
    /// `telemetry.otel_exporter_endpoint` is not a URL.
    TelemetryEndpoint,
    /// `redis.dbno` is above 15.
    RedisDbno,
}

/// The text of a binding: `{ip}:{port}`.
pub open spec fn address_spec(b: Binding) -> Seq<char> {
    b.ip@ + ":"@ + decimal_spec(b.port as nat)
}

/// An IP setting is accepted when the IPv4 pattern compiles and matches in
/// it.
pub open spec fn ip_accepted(ip: Seq<char>) -> bool {
    regex_search(RE_IPV4@, ip) == Some(true)
}

/// The violations of a binding.
pub open spec fn binding_violations(b: Binding) -> Seq<ConfigViolation> {
    if ip_accepted(b.ip@) { seq![] } else { seq![ConfigViolation::BindingIp] }
}

/// The violations of the telemetry settings.
pub open spec fn telemetry_violations(t: Telemetry) -> Seq<ConfigViolation> {
    if url_accepted(t.otel_exporter_endpoint@) { seq![] } else { seq![ConfigViolation::TelemetryEndpoint] }
}

/// The violations of the cache settings.
pub open spec fn redis_violations(r: Redis) -> Seq<ConfigViolation> {
    if r.dbno <= 15 { seq![] } else { seq![ConfigViolation::RedisDbno] }
}

/// All violations of the settings, in the order of the settings.
pub open spec fn config_violations(c: SeerConfig) -> Seq<ConfigViolation> {
    binding_violations(c.binding) + telemetry_violations(c.telemetry) + redis_violations(c.redis)
}

/// `r` reports exactly the violations `v`.
pub open spec fn reports(r: Result<(), Vec<ConfigViolation>>, v: Seq<ConfigViolation>) -> bool {
    &&& (r is Ok <==> v.len() == 0)
    &&& (r matches Err(found) ==> found@ == v)
}

/// A check's result reports violations exactly: `Ok` when there are none,
/// and otherwise the list of the violations itself.
pub proof fn law_reports_exactly(r: Result<(), Vec<ConfigViolation>>, v: Seq<ConfigViolation>)
    ensures
        reports(r, v) ==> (r is Ok <==> v.len() == 0),
        reports(r, v) ==> (r matches Err(found) ==> found@ == v),
        reports(r, v) && v.len() > 0 ==> r is Err,
{
}

/// A binding's address is its IP, then `:`, then the digits of its port,
/// which read back as the port.
pub proof fn law_address_is_ip_colon_port(b: Binding)
    ensures
        ({
            let a = address_spec(b);
            let ip = b.ip@;
            &&& a.subrange(0, ip.len() as int) == ip
            &&& a[ip.len() as int] == ':'
            &&& digits_value(a.subrange(ip.len() + 1int, a.len() as int)) == b.port
            &&& forall|i: int| ip.len() < i < a.len() ==> '0' <= #[trigger] a[i] <= '9'
        }),
{
    reveal_strlit(":");
    let a = address_spec(b);
    let ip = b.ip@;
    let d = decimal_spec(b.port as nat);
    law_decimal_reads_back(b.port as nat);
    assert(a =~= ip + ":"@ + d);
    assert(a.subrange(0, ip.len() as int) =~= ip);
    assert(a.subrange(ip.len() + 1int, a.len() as int) =~= d);
    assert forall|i: int| ip.len() < i < a.len() implies '0' <= #[trigger] a[i] <= '9' by {
        assert(a[i] == d[i - ip.len() - 1]);
    }
}

/// The telemetry endpoint is checked whether or not telemetry is enabled:
/// two telemetry settings with the same endpoint have the same violations,
/// and the endpoint is reported exactly when it is not accepted as a URL.
pub proof fn law_endpoint_checked_whatever_enable(t1: Telemetry, t2: Telemetry)
    requires
        t1.otel_exporter_endpoint@ == t2.otel_exporter_endpoint@,
    ensures
        telemetry_violations(t1) == telemetry_violations(t2),
        telemetry_violations(t1).contains(ConfigViolation::TelemetryEndpoint) <==> !url_accepted(
            t1.otel_exporter_endpoint@,
        ),
        telemetry_violations(t1).len() <= 1,
{
    if !url_accepted(t1.otel_exporter_endpoint@) {
        assert(telemetry_violations(t1)[0] == ConfigViolation::TelemetryEndpoint);
    }
}

/// Each check of the settings stands on its own: the settings are reported
/// for a bad IP exactly when the IP is not accepted, for the telemetry
/// endpoint exactly when it is not a URL (whatever `enable` says), and for
/// the Redis database exactly when its number is above 15; nothing else is
/// ever reported, and each at most once.
pub proof fn law_each_setting_is_checked(c: SeerConfig)
    ensures
        config_violations(c).contains(ConfigViolation::BindingIp) <==> !ip_accepted(c.binding.ip@),
        config_violations(c).contains(ConfigViolation::TelemetryEndpoint) <==> !url_accepted(
            c.telemetry.otel_exporter_endpoint@,
        ),
        config_violations(c).contains(ConfigViolation::RedisDbno) <==> c.redis.dbno > 15,
        config_violations(c).len() <= 3,
        config_violations(c).len() == 0 <==> (ip_accepted(c.binding.ip@) && url_accepted(
            c.telemetry.otel_exporter_endpoint@,
        ) && c.redis.dbno <= 15),
{
    let b = binding_violations(c.binding);
    let t = telemetry_violations(c.telemetry);
    let r = redis_violations(c.redis);
    let all = config_violations(c);
    assert(all =~= b + t + r);
    if !ip_accepted(c.binding.ip@) {
        assert(all[0] == ConfigViolation::BindingIp);
    }
    if !url_accepted(c.telemetry.otel_exporter_endpoint@) {
        assert(all[b.len() as int] == ConfigViolation::TelemetryEndpoint);
    }
    if c.redis.dbno > 15 {
        assert(all[(b.len() + t.len()) as int] == ConfigViolation::RedisDbno);
    }
    assert forall|i: int| 0 <= i < all.len() implies {
        &&& (all[i] == ConfigViolation::BindingIp ==> !ip_accepted(c.binding.ip@))
        &&& (all[i] == ConfigViolation::TelemetryEndpoint ==> !url_accepted(
            c.telemetry.otel_exporter_endpoint@,
        ))
        &&& (all[i] == ConfigViolation::RedisDbno ==> c.redis.dbno > 15)
    } by {
        if i < b.len() {
            assert(all[i] == b[i]);
        } else if i < b.len() + t.len() {
            assert(all[i] == t[i - b.len()]);
        } else {
            assert(all[i] == r[i - b.len() - t.len()]);
        }
    }
}

impl Binding {
    /// The address to listen on, `{ip}:{port}` (what `Display` gave).
    pub fn address(&self) -> (s: String)
        ensures
            s@ == address_spec(*self),
    {
        let mut s = join2(self.ip.as_str(), ":");
        let p = decimal(self.port as u64);
        s.append(p.as_str());
        s
    }

    /// Checks the binding: its IP must contain an IPv4 address.
    pub fn validate(&self) -> (r: Result<(), Vec<ConfigViolation>>)
        ensures
            reports(r, binding_violations(*self)),
    {
        match pattern_found(RE_IPV4, self.ip.as_str()) {
            Some(true) => Ok(()),
            _ => Err(just(ConfigViolation::BindingIp)),
        }
    }
}

impl Telemetry {
    /// Checks the telemetry settings: the exporter endpoint must be a URL.
    pub fn validate(&self) -> (r: Result<(), Vec<ConfigViolation>>)
        ensures
            reports(r, telemetry_violations(*self)),
    {
        if is_url(self.otel_exporter_endpoint.as_str()) {
            Ok(())
        } else {
            Err(just(ConfigViolation::TelemetryEndpoint))
        }
    }
}

impl Redis {
    /// Checks the cache settings: the database number must be 0 to 15.
    pub fn validate(&self) -> (r: Result<(), Vec<ConfigViolation>>)
        ensures
            reports(r, redis_violations(*self)),
    {
        if self.dbno <= MAX_REDIS_DBNO {
            Ok(())
        } else {
            Err(just(ConfigViolation::RedisDbno))
        }
    }
}

impl Db {
    /// Checks the database settings; none of them is restricted.
    pub fn validate(&self) -> (r: Result<(), Vec<ConfigViolation>>)
        ensures
            r is Ok,
    {
        Ok(())
    }
}

fn just(v: ConfigViolation) -> (r: Vec<ConfigViolation>)
    ensures
        r@ == seq![v],
{
    let mut r = Vec::new();
    r.push(v);
    r
}

fn violations_of(r: Result<(), Vec<ConfigViolation>>) -> (v: Vec<ConfigViolation>)
    ensures
        r is Ok ==> v@.len() == 0,
        r matches Err(found) ==> v@ == found@,
{
    match r {
        Ok(()) => Vec::new(),
        Err(found) => found,
    }
}

impl SeerConfig {
    /// Checks all settings and reports every violation, in the order of the
    /// settings; `Ok` when there is none.
    pub fn validate(&self) -> (r: Result<(), Vec<ConfigViolation>>)
        ensures
            reports(r, config_violations(*self)),
    {
        let mut all = violations_of(self.binding.validate());
        let mut t = violations_of(self.telemetry.validate());
        let mut c = violations_of(self.redis.validate());
        all.append(&mut t);
        all.append(&mut c);
        if all.len() == 0 {
            Ok(())
        } else {
            Err(all)
        }
    }
}

} // verus!
