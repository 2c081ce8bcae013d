use std::collections::BTreeMap;

use logline::api::{
    AuthMode, BackendAuth, BackendConfig, BackendConnector, ConnectorFactory, Intent, LoglineError,
    SecretStore,
};
use logline::catalog::{demo_catalog, validate_catalog, ConnectionCatalog, Profile, RuntimePolicy};
use logline::connectors::{DefaultConnectorFactory, HttpLikeConnector};
use logline::named::NameMap;
use logline::runtime::LoglineRuntime;

struct NoSecrets;

impl SecretStore for NoSecrets {
    fn get(&self, secret_ref: &str) -> Result<String, LoglineError> {
        Err(LoglineError::NotFound(secret_ref.to_string()))
    }
}

fn backend(id: &str, url: &str) -> BackendConfig {
    BackendConfig {
        backend_id: id.to_string(),
        base_url: url.to_string(),
        auth: BackendAuth { mode: AuthMode::Bearer, secret_ref: "REF".to_string() },
        connect_timeout_ms: 1,
        request_timeout_ms: 1,
        extra_headers: BTreeMap::new(),
    }
}

fn profile(id: &str, backend_id: &str) -> Profile {
    Profile { id: id.to_string(), backend_id: backend_id.to_string(), readonly: false }
}

#[test]
fn demo_catalog_is_valid() {
    let c = demo_catalog();
    assert!(validate_catalog(&c).is_ok());
    assert!(c.profiles.contains_key("local"));
    assert_eq!(c.backends.get("local-main").unwrap().base_url, "http://127.0.0.1:8787");
    assert_eq!(RuntimePolicy::default().max_concurrent_runs, 4);
}

#[test]
fn dangling_profile_is_rejected() {
    let mut c = ConnectionCatalog::default();
    c.profiles.insert("p".to_string(), profile("p", "nowhere"));
    match validate_catalog(&c) {
        Err(LoglineError::Validation(m)) => assert_eq!(m, "profile p points to missing backend nowhere"),
        other => panic!("{other:?}"),
    }
}

#[test]
fn names_stay_ordered() {
    let mut m: NameMap<u32> = NameMap::new();
    m.insert("b".to_string(), 2);
    m.insert("a".to_string(), 1);
    m.insert("c".to_string(), 3);
    m.insert("b".to_string(), 20);
    assert_eq!(m.len(), 3);
    assert_eq!(m.name_at(0), "a");
    assert_eq!(m.name_at(1), "b");
    assert_eq!(*m.value_at(1), 20);
    assert_eq!(m.get("zz"), None);
}

#[test]
fn runtime_selects_first_profile_and_switches() {
    let mut c = ConnectionCatalog::default();
    c.backends.insert("b1".to_string(), backend("b1", "http://one"));
    c.backends.insert("b2".to_string(), backend("b2", ""));
    c.profiles.insert("zeta".to_string(), profile("zeta", "b2"));
    c.profiles.insert("alpha".to_string(), profile("alpha", "b1"));
    let mut rt = LoglineRuntime::from_catalog_with_factory(c, &DefaultConnectorFactory, &NoSecrets).unwrap();
    let st = rt.status();
    assert_eq!(st.active_profile, "alpha");
    assert_eq!(st.active_backend, "b1");
    let intent = Intent { intent_type: "sync".to_string(), payload: BTreeMap::new() };
    let out = rt.run_intent(intent).unwrap();
    assert_eq!(out.status, "accepted");
    assert_eq!(out.output.get("target").map(String::as_str), Some("http://one"));
    assert!(out.run_id.starts_with("run-"));
    assert!(rt.test_backend("b1".to_string()).is_ok());
    assert!(matches!(rt.test_backend("b2".to_string()), Err(LoglineError::Connection(_))));
    assert!(matches!(rt.test_backend("b3".to_string()), Err(LoglineError::NotFound(_))));
    assert!(matches!(rt.select_profile("nope".to_string()), Err(LoglineError::NotFound(_))));
    rt.select_profile("zeta".to_string()).unwrap();
    assert_eq!(rt.status().active_backend, "b2");
    let events = rt.events_since(Some("c1".to_string())).unwrap();
    assert_eq!(events[0].kind, "heartbeat");
    assert_eq!(events[0].attributes.get("since").map(String::as_str), Some("c1"));
}

#[test]
fn runtime_without_profiles_fails() {
    let c = ConnectionCatalog::default();
    assert!(matches!(
        LoglineRuntime::from_catalog(c, &NoSecrets),
        Err(LoglineError::Validation(_))
    ));
}

#[test]
fn connector_basics() {
    let c = HttpLikeConnector::new("id1".to_string(), "http://x".to_string());
    assert_eq!(c.id(), "id1");
    assert!(c.capabilities().supports_write);
    let f = DefaultConnectorFactory;
    let built = f.build(&backend("b9", "http://y"), &NoSecrets).unwrap();
    assert_eq!(built.id(), "b9");
    assert!(LoglineError::NotFound("x".to_string()).message().starts_with("not found: "));
}
