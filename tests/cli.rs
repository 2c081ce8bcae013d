use logline::calendar::{days_to_ymd, format_timestamp, is_leap};
use logline::credentials::{
    parse_env_value, parse_key_val, pick_credential, require_credential, require_credential_or_env,
    validate_key,
};
use logline::identity::{
    cached_founder_status, founder_status_after_check, load_identity, require_infra_identity,
    require_logged_in, require_non_founder, require_passkey_identity, AuthIdentity, IdentityCache,
    StoredAuth,
};
use logline::git_remote::parse_remote;
use logline::migrations::get_pending_migration_names;
use logline::session::{format_expires, format_ttl_remaining, parse_ttl, require_unlocked, SessionToken};

fn session(expires_at: u64) -> SessionToken {
    SessionToken { session_id: "s_1".to_string(), expires_at, opened_by: "touch_id".to_string() }
}

fn identity(method: &str, founder: bool) -> AuthIdentity {
    AuthIdentity {
        user_id: "u1".to_string(),
        email: Some("op@example.com".to_string()),
        auth_method: method.to_string(),
        is_founder: founder,
        profile: if founder { "founder" } else { "operator" }.to_string(),
    }
}

#[test]
fn calendar_dates() {
    assert_eq!(days_to_ymd(0), (1970, 1, 1));
    assert_eq!(days_to_ymd(59), (1970, 3, 1));
    assert_eq!(days_to_ymd(365), (1971, 1, 1));
    assert_eq!(days_to_ymd(789), (1972, 2, 29));
    assert_eq!(days_to_ymd(11016), (2000, 2, 29));
    assert_eq!(days_to_ymd(19722), (2023, 12, 31));
    assert!(is_leap(2000));
    assert!(!is_leap(1900));
    assert!(is_leap(2024));
    assert_eq!(format_timestamp(0), "1970-01-01T00:00:00Z");
    assert_eq!(format_timestamp(1_700_000_000), "2023-11-14T22:13:20Z");
}

#[test]
fn session_ttl_parsing() {
    assert_eq!(parse_ttl("5m").unwrap(), 300);
    assert_eq!(parse_ttl(" 2H ").unwrap(), 7200);
    assert_eq!(parse_ttl("45s").unwrap(), 45);
    assert!(parse_ttl("30").is_err());
    assert!(parse_ttl("m").is_err());
    assert!(parse_ttl("99999999999999999999h").is_err());
    assert!(parse_ttl("18446744073709551615m").is_err());
}

#[test]
fn session_time_texts() {
    assert_eq!(format_expires(100, 100), "expired");
    assert_eq!(format_expires(100 + 7_500, 100), "2h 5m from now");
    assert_eq!(format_ttl_remaining(45), "45s");
    assert_eq!(format_ttl_remaining(600), "10m");
    assert_eq!(format_ttl_remaining(7_500), "2h 5m");
}

#[test]
fn unlocked_session_gate() {
    assert!(require_unlocked(None, 10).is_err());
    assert!(require_unlocked(Some(session(10)), 10).is_err());
    assert_eq!(require_unlocked(Some(session(11)), 10).unwrap().session_id, "s_1");
}

#[test]
fn identity_gates() {
    assert!(require_logged_in(None).is_err());
    assert!(require_passkey_identity(Some(identity("password", false))).is_err());
    assert!(require_passkey_identity(Some(identity("passkey", false))).is_ok());
    assert!(require_non_founder(&identity("passkey", true)).is_err());
    assert!(require_non_founder(&identity("passkey", false)).is_ok());
    let (s, i) =
        require_infra_identity(Some(session(100)), Some(identity("passkey", false)), 50).unwrap();
    assert_eq!(s.expires_at, 100);
    assert_eq!(i.user_id, "u1");
    assert!(require_infra_identity(Some(session(100)), Some(identity("passkey", true)), 50).is_err());
    assert!(require_infra_identity(Some(session(40)), Some(identity("passkey", false)), 50).is_err());
}

#[test]
fn identity_from_stored_tokens() {
    let auth = StoredAuth {
        access_token: "a".to_string(),
        refresh_token: "r".to_string(),
        user_id: Some("u9".to_string()),
        email: None,
        expires_at: None,
        auth_method: None,
    };
    let i = load_identity(Some(auth.clone()), false).unwrap();
    assert_eq!(i.user_id, "u9");
    assert_eq!(i.auth_method, "unknown");
    assert_eq!(i.profile, "operator");
    assert_eq!(load_identity(Some(auth.clone()), true).unwrap().profile, "founder");
    assert!(load_identity(Some(StoredAuth { user_id: None, ..auth }), false).is_none());
    assert!(load_identity(None, false).is_none());
}

#[test]
fn founder_status_resolution() {
    let cache = Some(IdentityCache { user_id: "u1".to_string(), is_founder: false, cached_at: 1_000 });
    assert_eq!(cached_founder_status(&cache, "u1", 2_000), Some(false));
    assert_eq!(cached_founder_status(&cache, "u1", 2_800), None);
    assert_eq!(cached_founder_status(&cache, "u2", 1_000), None);
    assert!(cache.as_ref().unwrap().is_valid(500));
    assert!(!founder_status_after_check(Some(false), &None, "u1"));
    assert!(!founder_status_after_check(None, &cache, "u1"));
    assert!(founder_status_after_check(None, &cache, "u2"));
}

#[test]
fn credential_lookups() {
    assert!(validate_key("github_token").is_ok());
    assert!(validate_key("").is_err());
    assert!(validate_key("bad-key").is_err());
    assert_eq!(pick_credential(Some("k".to_string()), Some("e".to_string())), Some("k".to_string()));
    assert_eq!(pick_credential(None, Some(String::new())), None);
    assert_eq!(pick_credential(None, Some("e".to_string())), Some("e".to_string()));
    assert_eq!(require_credential("k", Some("v".to_string())).unwrap(), "v");
    let e = require_credential("github_token", None).unwrap_err();
    assert!(e.message.contains("logline secrets set github_token"));
    assert_eq!(require_credential_or_env("k", "K", None, Some("env".to_string())).unwrap(), "env");
    assert!(require_credential_or_env("k", "K", None, None).unwrap_err().message.contains("Or set env var: K"));
}

#[test]
fn key_value_arguments() {
    assert_eq!(parse_key_val("A=b=c").unwrap(), ("A".to_string(), "b=c".to_string()));
    assert_eq!(parse_key_val("A=").unwrap(), ("A".to_string(), String::new()));
    assert_eq!(parse_key_val("nokey").unwrap_err(), "must be KEY=VALUE");
}

#[test]
fn env_file_values() {
    let content = "# comment\n\nOTHER=1\r\nNEXT_PUBLIC_SUPABASE_URL = \"https://x.supabase.co\"\nEMPTY=''\nEMPTY=set\n";
    assert_eq!(parse_env_value(content, "NEXT_PUBLIC_SUPABASE_URL"), Some("https://x.supabase.co".to_string()));
    assert_eq!(parse_env_value(content, "OTHER"), Some("1".to_string()));
    assert_eq!(parse_env_value(content, "EMPTY"), Some("set".to_string()));
    assert_eq!(parse_env_value(content, "MISSING"), None);
    assert_eq!(parse_env_value("junk line\nKEY=v", "KEY"), None);
    assert_eq!(parse_env_value("KEY='  spaced  '", "KEY"), Some("spaced".to_string()));
}

#[test]
fn pending_migrations() {
    let files = vec!["001_init.sql".to_string(), "002_users.sql".to_string(), "003_rls.sql".to_string()];
    let applied = vec!["002_users.sql".to_string()];
    assert_eq!(
        get_pending_migration_names(&files, &applied),
        vec!["001_init.sql".to_string(), "003_rls.sql".to_string()]
    );
    assert!(get_pending_migration_names(&files, &files).is_empty());
}

#[test]
fn github_remote_urls() {
    assert_eq!(
        parse_remote("git@github.com:acme/widgets.git"),
        Some(("acme".to_string(), "widgets".to_string()))
    );
    assert_eq!(
        parse_remote("https://github.com/acme/widgets/"),
        Some(("acme".to_string(), "widgets".to_string()))
    );
    assert_eq!(parse_remote("git@github.com:widgets"), Some(("github.com".to_string(), "widgets".to_string())));
    assert_eq!(parse_remote("widgets"), None);
}
