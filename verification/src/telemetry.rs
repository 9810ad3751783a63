//! Telemetry set-up decisions: which service name is reported, and whether an
//! exporter's channel speaks TLS.

use crate::text::has_prefix;
use vstd::prelude::*;

verus! {

/// The service name reported when the environment names none.
pub const SERVICE_NAME: &'static str = "seer";

/// The variable that names the endpoint of every signal.
pub const GENERIC_ENDPOINT_VAR: &'static str = "OTEL_EXPORTER_OTLP_ENDPOINT";

/// The variable that names the endpoint of traces.
pub const TRACES_ENDPOINT_VAR: &'static str = "OTEL_EXPORTER_OTLP_TRACES_ENDPOINT";

/// The variable that names the endpoint of logs.
pub const LOGS_ENDPOINT_VAR: &'static str = "OTEL_EXPORTER_OTLP_LOGS_ENDPOINT";

/// The variable that names the service.
pub const SERVICE_NAME_VAR: &'static str = "OTEL_SERVICE_NAME";

/// The variable that names an extra CA certificate for TLS.
pub const CERTIFICATE_VAR: &'static str = "OTEL_EXPORTER_OTLP_CERTIFICATE";

/// An environment value counts only when it is set and not empty.
pub open spec fn explicit(v: Option<String>) -> Option<Seq<char>> {
    match v {
        Some(s) => if s@.len() > 0 { Some(s@) } else { None },
        None => None,
    }
}

/// The endpoint an exporter uses: its signal's variable, else the generic
/// one, else none (the plaintext default).
pub open spec fn chosen_endpoint(signal: Option<String>, generic: Option<String>) -> Option<Seq<char>> {
    match explicit(signal) {
        Some(e) => Some(e),
        None => explicit(generic),
    }
}

/// Whether a text begins with `https://`.
pub open spec fn is_https(e: Seq<char>) -> bool {
    "https://"@.len() <= e.len() && e.subrange(0, "https://"@.len() as int) == "https://"@
}

/// Which endpoint an exporter resolves to: a set, non-empty signal variable
/// wins whatever the generic variable holds; otherwise a set, non-empty
/// generic variable is used; otherwise there is none.
pub proof fn law_signal_endpoint_wins(signal: Option<String>, generic: Option<String>)
    ensures
        signal matches Some(s) ==> (s@.len() > 0 ==> chosen_endpoint(signal, generic) == Some(s@)),
        (signal is None || signal.unwrap()@.len() == 0) ==> (generic matches Some(g) ==> (g@.len() > 0
            ==> chosen_endpoint(signal, generic) == Some(g@))),
        (signal is None || signal.unwrap()@.len() == 0) && (generic is None || generic.unwrap()@.len()
            == 0) ==> chosen_endpoint(signal, generic) is None,
{
}

/// An endpoint speaks TLS exactly when its first eight characters are
/// `https://`.
pub proof fn law_https_prefix(e: Seq<char>)
    ensures
        is_https(e) <==> (e.len() >= 8 && e[0] == 'h' && e[1] == 't' && e[2] == 't' && e[3] == 'p'
            && e[4] == 's' && e[5] == ':' && e[6] == '/' && e[7] == '/'),
{
    reveal_strlit("https://");
    if e.len() >= 8 && e[0] == 'h' && e[1] == 't' && e[2] == 't' && e[3] == 'p' && e[4] == 's'
        && e[5] == ':' && e[6] == '/' && e[7] == '/' {
        assert(e.subrange(0, 8) =~= "https://"@);
    }
    let h = "https://"@;
    assert(h.len() == 8);
    assert(h[0] == 'h' && h[1] == 't' && h[2] == 't' && h[3] == 'p' && h[4] == 's' && h[5] == ':'
        && h[6] == '/' && h[7] == '/');
    if is_https(e) {
        let p = e.subrange(0, 8);
        assert(p[0] == e[0] && p[1] == e[1] && p[2] == e[2] && p[3] == e[3]);
        assert(p[4] == e[4] && p[5] == e[5] && p[6] == e[6] && p[7] == e[7]);
    }
}

/// Whether an exporter's channel will speak TLS, given the values of its
/// signal's endpoint variable and of the generic one: it does when the
/// endpoint it resolves to begins with `https://`.
pub fn resolves_to_https(signal: &Option<String>, generic: &Option<String>) -> (r: bool)
    ensures
        r == (chosen_endpoint(*signal, *generic) matches Some(e) && is_https(e)),
{
    let chosen: Option<&String> = match signal {
        Some(s) if !s.as_str().is_empty() => Some(s),
        _ => match generic {
            Some(g) if !g.as_str().is_empty() => Some(g),
            _ => None,
        },
    };
    match chosen {
        Some(e) => has_prefix(e.as_str(), "https://"),
        None => false,
    }
}

/// The default service name is used exactly when neither a set, non-empty
/// `OTEL_SERVICE_NAME` nor a detected service name gives one.
pub proof fn law_default_service_name(service_name_var: Option<String>, detected: bool)
    ensures
        detected ==> !(explicit(service_name_var) is None && !detected),
        service_name_var matches Some(v) ==> (v@.len() > 0 ==> explicit(service_name_var) is Some),
        !detected && (service_name_var is None || service_name_var.unwrap()@.len() == 0) ==> (
        explicit(service_name_var) is None && !detected),
{
}

/// Whether the service name must be set to `seer`: only when the
/// environment names none, neither through `OTEL_SERVICE_NAME` (set and not
/// empty) nor through the resource attributes the environment detector found.
pub fn needs_default_service_name(service_name_var: &Option<String>, detected: bool) -> (r: bool)
    ensures
        r == (explicit(*service_name_var) is None && !detected),
{
    let from_var = match service_name_var {
        Some(s) => !s.as_str().is_empty(),
        None => false,
    };
    !(from_var || detected)
}

} // verus!
