use fregate::management::{Endpoint, Endpoints, ManagementConfig};

#[test]
fn endpoint_new_accepts_slash_paths() {
    let e = Endpoint::new("/observability").unwrap();
    assert_eq!(e.as_ref(), "/observability");
    let e = Endpoint::new("///also_valid").unwrap();
    assert_eq!(e.as_ref(), "///also_valid");
    let e = Endpoint::new("/").unwrap();
    assert_eq!(e.as_ref(), "/");
}

#[test]
fn endpoint_new_rejects_other_paths() {
    assert_eq!(
        Endpoint::new("invalid").unwrap_err(),
        "Endpoint must start with a `/`"
    );
    assert!(Endpoint::new("").is_err());
    assert!(Endpoint::new("health").is_err());
}

#[test]
fn default_endpoints() {
    let eps = Endpoints::default();
    assert_eq!(eps.health.as_ref(), "/health");
    assert_eq!(eps.live.as_ref(), "/live");
    assert_eq!(eps.ready.as_ref(), "/ready");
    assert_eq!(eps.metrics.as_ref(), "/metrics");
    assert_eq!(eps.version.as_ref(), "/version");
}

#[test]
fn default_management_config() {
    let config = ManagementConfig::default();
    assert_eq!(config.endpoints.health.as_ref(), "/health");
    assert_eq!(config.endpoints.version.as_ref(), "/version");
}

#[test]
fn valid_override_wins() {
    let eps = Endpoints::from_overrides(
        Some("///also_valid".to_owned()),
        None,
        None,
        Some("/observability".to_owned()),
        None,
    );
    assert_eq!(eps.health.as_ref(), "///also_valid");
    assert_eq!(eps.live.as_ref(), "/live");
    assert_eq!(eps.ready.as_ref(), "/ready");
    assert_eq!(eps.metrics.as_ref(), "/observability");
    assert_eq!(eps.version.as_ref(), "/version");
}

#[test]
fn invalid_override_falls_back_to_default() {
    let eps = Endpoints::from_overrides(
        None,
        Some("invalid".to_owned()),
        Some("".to_owned()),
        None,
        None,
    );
    assert_eq!(eps.live.as_ref(), "/live");
    assert_eq!(eps.ready.as_ref(), "/ready");
}

#[test]
fn from_value_reads_overrides() {
    let mut map = serde_json::Map::new();
    map.insert(
        "metrics".to_owned(),
        serde_json::Value::String("/observability".to_owned()),
    );
    map.insert(
        "live".to_owned(),
        serde_json::Value::String("invalid".to_owned()),
    );
    map.insert(
        "ready".to_owned(),
        serde_json::Value::Bool(true),
    );
    let value = serde_json::Value::Object(map);
    let eps = Endpoints::from_value(&value);
    assert_eq!(eps.metrics.as_ref(), "/observability");
    // invalid string: silent fallback to the compiled-in default
    assert_eq!(eps.live.as_ref(), "/live");
    // not a string: silent fallback as well
    assert_eq!(eps.ready.as_ref(), "/ready");
    // absent: default
    assert_eq!(eps.health.as_ref(), "/health");
    assert_eq!(eps.version.as_ref(), "/version");
}

#[test]
fn from_value_on_non_object_gives_defaults() {
    let value = serde_json::Value::Null;
    let config = ManagementConfig::from_value(&value);
    assert_eq!(config.endpoints.health.as_ref(), "/health");
    assert_eq!(config.endpoints.live.as_ref(), "/live");
    assert_eq!(config.endpoints.ready.as_ref(), "/ready");
    assert_eq!(config.endpoints.metrics.as_ref(), "/metrics");
    assert_eq!(config.endpoints.version.as_ref(), "/version");
}
