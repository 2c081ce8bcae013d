use logline::tenant::{tenant_from_lowered, decide_tenant, derive_from_host, derive_tenant, TenantConfig, TenantSource};

#[test]
fn tenant_from_host() {
    assert_eq!(derive_from_host("acme.example.com", Some("example.com")), Some("acme".to_string()));
    assert_eq!(
        derive_from_host("foo.acme.example.com", Some("example.com")),
        Some("acme".to_string())
    );
    assert_eq!(derive_from_host("example.com", Some("example.com")), None);
}

#[test]
fn tenant_from_claims() {
    let claims = serde_json::from_str::<serde_json::Value>("{\"tenant_id\":\"acme\"}").unwrap();
    let cfg = TenantConfig::default();
    let d = derive_tenant(None, &claims, &cfg);
    assert_eq!(d.tenant_id.as_deref(), Some("acme"));
    assert_eq!(d.source, TenantSource::Claim);
}

#[test]
fn host_normalization() {
    assert_eq!(derive_from_host("  ACME.Example.COM:8443 ", Some(".example.com")), Some("acme".to_string()));
    assert_eq!(derive_from_host("acme.example.com", None), None);
    assert_eq!(derive_from_host("acme.other.org", Some("example.com")), None);
    assert_eq!(derive_from_host("ac_me.example.com", Some("example.com")), None);
    assert_eq!(derive_from_host("x-1.example.com", Some("example.com")), Some("x-1".to_string()));
}

#[test]
fn host_preferred_and_allow_list() {
    let claims = serde_json::from_str::<serde_json::Value>("{\"tenant_id\":\"beta\"}").unwrap();
    let mut cfg = TenantConfig { host_root: Some("example.com".to_string()), ..TenantConfig::default() };
    let d = derive_tenant(Some("acme.example.com"), &claims, &cfg);
    assert_eq!(d.tenant_id.as_deref(), Some("acme"));
    assert_eq!(d.source, TenantSource::Host);
    assert!(d.is_some());

    cfg.prefer_host = false;
    let d = derive_tenant(Some("acme.example.com"), &claims, &cfg);
    assert_eq!(d.tenant_id.as_deref(), Some("beta"));
    assert_eq!(d.source, TenantSource::Claim);

    cfg.allow_list = Some(vec!["acme".to_string()]);
    let d = derive_tenant(Some("acme.example.com"), &claims, &cfg);
    assert_eq!(d.tenant_id, None);
    assert_eq!(d.source, TenantSource::Undetermined);
    assert!(!d.is_some());
}

#[test]
fn decision_without_candidates() {
    let d = decide_tenant(None, None, &TenantConfig::default());
    assert_eq!(d.tenant_id, None);
    assert_eq!(d.source, TenantSource::Undetermined);
}

#[test]
fn lowered_host_logic() {
    assert_eq!(tenant_from_lowered("acme.example.com:80", ".example.com"), Some("acme".to_string()));
    assert_eq!(tenant_from_lowered("example.com", "example.com"), None);
    assert_eq!(tenant_from_lowered("a.b.example.com..", "example.com"), None);
}
