//! Management-socket configuration: the conventional endpoint paths
//! (`/health`, `/live`, `/ready`, `/metrics`, `/version`), each individually
//! overridable. A path is valid when it starts with `/`; a malformed
//! override silently falls back to the compiled-in default.

use vstd::prelude::*;

verus! {

/// Relied on for reading endpoint overrides out of a resolved configuration
/// value: `serde_json::Value` is carried opaquely.
#[verifier::external_type_specification]
#[verifier::external_body]
pub struct ExValue(serde_json::Value);

/// The string at a JSON pointer: what `serde_json::Value::pointer` finds at
/// `p` in `v` when that is a string, `None` when the pointer matches nothing
/// or the value there is not a string. A function of the value and the
/// pointer alone; `pointer_string` returns it.
pub uninterp spec fn pointer_str_of(v: serde_json::Value, p: Seq<char>) -> Option<Seq<char>>;

/// Whether `s` may name a management endpoint: it must start with `/`.
pub open spec fn valid_endpoint_path(s: Seq<char>) -> bool {
    s.len() > 0 && s[0] == '/'
}

/// The path a single endpoint ends up with, given an optional override and
/// the compiled-in default: the override when it is present and valid, the
/// default otherwise.
pub open spec fn chosen_path(candidate: Option<Seq<char>>, default_path: Seq<char>) -> Seq<
    char,
> {
    match candidate {
        Some(s) => if valid_endpoint_path(s) {
            s
        } else {
            default_path
        },
        None => default_path,
    }
}

/// The character sequence of an optional override string.
pub open spec fn override_view(candidate: Option<String>) -> Option<Seq<char>> {
    match candidate {
        Some(s) => Some(s@),
        None => None,
    }
}

/// A management endpoint path; the wrapped string always starts with `/`.
#[derive(Debug, Clone)]
pub struct Endpoint {
    path: String,
}

impl View for Endpoint {
    type V = Seq<char>;

    closed spec fn view(&self) -> Seq<char> {
        self.path@
    }
}

/// Whether `path` starts with `/`.
fn starts_with_slash(path: &str) -> (r: bool)
    ensures
        r == valid_endpoint_path(path@),
{
    broadcast use vstd::string::group_string_axioms;

    let mut it = path.chars();
    match it.next() {
        Some(c) => c == '/',
        None => false,
    }
}

impl Endpoint {
    /// Whether the wrapped path is valid.
    pub open spec fn wf(&self) -> bool {
        valid_endpoint_path(self@)
    }

    /// Wraps `path` as an endpoint. Returns an error exactly when `path`
    /// does not start with `/`.
    pub fn new(path: &str) -> (r: Result<Endpoint, &'static str>)
        ensures
            r is Ok <==> valid_endpoint_path(path@),
            r matches Ok(e) ==> e@ == path@ && e.wf(),
            r matches Err(m) ==> m@ == "Endpoint must start with a `/`"@,
    {
        if starts_with_slash(path) {
            Ok(Endpoint { path: path.to_owned() })
        } else {
            Err("Endpoint must start with a `/`")
        }
    }

    /// The wrapped path.
    pub fn as_ref(&self) -> (r: &str)
        ensures
            r@ == self@,
    {
        self.path.as_str()
    }
}

/// The five endpoints the management socket serves.
#[derive(Debug, Clone)]
pub struct Endpoints {
    /// Health endpoint.
    pub health: Endpoint,
    /// Liveness endpoint.
    pub live: Endpoint,
    /// Readiness endpoint.
    pub ready: Endpoint,
    /// Metrics endpoint.
    pub metrics: Endpoint,
    /// Version endpoint.
    pub version: Endpoint,
}

impl Endpoints {
    /// Whether all five paths are valid.
    pub open spec fn wf(&self) -> bool {
        self.health.wf() && self.live.wf() && self.ready.wf() && self.metrics.wf()
            && self.version.wf()
    }

    /// Whether the five paths are exactly the compiled-in defaults.
    pub open spec fn is_default(&self) -> bool {
        self.health@ == "/health"@ && self.live@ == "/live"@ && self.ready@ == "/ready"@
            && self.metrics@ == "/metrics"@ && self.version@ == "/version"@
    }

    /// Resolves the five endpoints from their optional overrides: each
    /// endpoint takes its override when that is present and starts with
    /// `/`, and silently falls back to its compiled-in default otherwise.
    pub fn from_overrides(
        health: Option<String>,
        live: Option<String>,
        ready: Option<String>,
        metrics: Option<String>,
        version: Option<String>,
    ) -> (eps: Endpoints)
        ensures
            eps.health@ == chosen_path(override_view(health), "/health"@),
            eps.live@ == chosen_path(override_view(live), "/live"@),
            eps.ready@ == chosen_path(override_view(ready), "/ready"@),
            eps.metrics@ == chosen_path(override_view(metrics), "/metrics"@),
            eps.version@ == chosen_path(override_view(version), "/version"@),
            eps.wf(),
    {
        proof {
            reveal_strlit("/health");
            reveal_strlit("/live");
            reveal_strlit("/ready");
            reveal_strlit("/metrics");
            reveal_strlit("/version");
        }
        Endpoints {
            health: endpoint_or(health, "/health"),
            live: endpoint_or(live, "/live"),
            ready: endpoint_or(ready, "/ready"),
            metrics: endpoint_or(metrics, "/metrics"),
            version: endpoint_or(version, "/version"),
        }
    }

    /// Resolves the five endpoints from a configuration value: each
    /// endpoint takes the string under its conventional key when that is
    /// present and starts with `/`, and silently falls back to its
    /// compiled-in default when the key is missing or its value malformed.
    pub fn from_value(value: &serde_json::Value) -> (eps: Endpoints)
        ensures
            eps.health@ == chosen_path(pointer_str_of(*value, "/health"@), "/health"@),
            eps.live@ == chosen_path(pointer_str_of(*value, "/live"@), "/live"@),
            eps.ready@ == chosen_path(pointer_str_of(*value, "/ready"@), "/ready"@),
            eps.metrics@ == chosen_path(pointer_str_of(*value, "/metrics"@), "/metrics"@),
            eps.version@ == chosen_path(pointer_str_of(*value, "/version"@), "/version"@),
            eps.wf(),
    {
        let health = pointer_string(value, "/health");
        let live = pointer_string(value, "/live");
        let ready = pointer_string(value, "/ready");
        let metrics = pointer_string(value, "/metrics");
        let version = pointer_string(value, "/version");
        Endpoints::from_overrides(health, live, ready, metrics, version)
    }
}

impl Default for Endpoints {
    /// The compiled-in default paths.
    fn default() -> (eps: Endpoints)
        ensures
            eps.is_default(),
            eps.wf(),
    {
        proof {
            reveal_strlit("/health");
            reveal_strlit("/live");
            reveal_strlit("/ready");
            reveal_strlit("/metrics");
            reveal_strlit("/version");
        }
        Endpoints {
            health: Endpoint { path: "/health".to_owned() },
            live: Endpoint { path: "/live".to_owned() },
            ready: Endpoint { path: "/ready".to_owned() },
            metrics: Endpoint { path: "/metrics".to_owned() },
            version: Endpoint { path: "/version".to_owned() },
        }
    }
}

/// Relies on `serde_json::Value::pointer`: looks up the value at the given
/// JSON pointer and hands back its text when it is a string, `None` when the
/// pointer matches nothing or the value there is not a string. The result
/// depends on the value and the pointer alone, so it bears the name
/// `pointer_str_of`.
#[verifier::external_body]
fn pointer_string(value: &serde_json::Value, ptr: &str) -> (r: Option<String>)
    ensures
        override_view(r) == pointer_str_of(*value, ptr@),
{
    match value.pointer(ptr) {
        Some(serde_json::Value::String(s)) => Some(s.clone()),
        _ => None,
    }
}

/// The override when it is valid, the default otherwise.
fn endpoint_or(candidate: Option<String>, default_path: &str) -> (e: Endpoint)
    requires
        valid_endpoint_path(default_path@),
    ensures
        e@ == chosen_path(override_view(candidate), default_path@),
        e.wf(),
{
    match candidate {
        Some(s) => {
            if starts_with_slash(s.as_str()) {
                Endpoint { path: s }
            } else {
                Endpoint { path: default_path.to_owned() }
            }
        },
        None => Endpoint { path: default_path.to_owned() },
    }
}

/// Management configuration: currently only the endpoints.
#[derive(Debug, Clone)]
pub struct ManagementConfig {
    /// Health and metrics endpoints.
    pub endpoints: Endpoints,
}

impl ManagementConfig {
    /// Whether the held endpoints are well-formed.
    pub open spec fn wf(&self) -> bool {
        self.endpoints.wf()
    }

    /// Resolves the configuration from a configuration value, endpoint by
    /// endpoint, with the silent fallback to the defaults.
    pub fn from_value(value: &serde_json::Value) -> (config: ManagementConfig)
        ensures
            config.endpoints.health@ == chosen_path(
                pointer_str_of(*value, "/health"@),
                "/health"@,
            ),
            config.endpoints.live@ == chosen_path(pointer_str_of(*value, "/live"@), "/live"@),
            config.endpoints.ready@ == chosen_path(pointer_str_of(*value, "/ready"@), "/ready"@),
            config.endpoints.metrics@ == chosen_path(
                pointer_str_of(*value, "/metrics"@),
                "/metrics"@,
            ),
            config.endpoints.version@ == chosen_path(
                pointer_str_of(*value, "/version"@),
                "/version"@,
            ),
            config.wf(),
    {
        ManagementConfig { endpoints: Endpoints::from_value(value) }
    }
}

impl Default for ManagementConfig {
    /// The compiled-in default endpoints.
    fn default() -> (config: ManagementConfig)
        ensures
            config.endpoints.is_default(),
            config.wf(),
    {
        ManagementConfig { endpoints: Endpoints::default() }
    }
}

} // verus!
