use logline::cookie::{build_clear_cookie, build_set_cookie, CookieOptions, SameSite};
use logline::error::Error;

#[test]
fn host_cookie_name() {
    let opts = CookieOptions::default();
    let sc = build_set_cookie("abc", &opts, 0).unwrap();
    assert!(sc.starts_with("__Host-logline_session=abc"));
    assert!(sc.contains("Path=/"));
}

#[test]
fn clear_cookie_has_max_age_zero() {
    let opts = CookieOptions::default();
    let sc = build_clear_cookie(&opts).unwrap();
    assert!(sc.contains("Max-Age=0"));
}

#[test]
fn full_set_cookie_value() {
    let opts = CookieOptions {
        name: "__Host-__Host-sid".to_string(),
        max_age_seconds: Some(3600),
        same_site: SameSite::Strict,
        ..CookieOptions::default()
    };
    assert_eq!(
        build_set_cookie("v", &opts, 0).unwrap(),
        "__Host-sid=v; Path=/; Secure; HttpOnly; SameSite=Strict; Max-Age=3600; Expires=Thu, 01 Jan 1970 01:00:00 GMT"
    );
    assert_eq!(
        build_clear_cookie(&opts).unwrap(),
        "__Host-sid=; Path=/; Secure; HttpOnly; SameSite=Strict; Max-Age=0; Expires=Thu, 01 Jan 1970 00:00:00 GMT"
    );
}

#[test]
fn domain_cookie_keeps_its_name() {
    let opts = CookieOptions {
        domain: Some("example.com".to_string()),
        path: "/app".to_string(),
        secure: false,
        http_only: false,
        same_site: SameSite::NoRestriction,
        ..CookieOptions::default()
    };
    assert_eq!(
        build_set_cookie("1", &opts, 0).unwrap(),
        "logline_session=1; Path=/app; Domain=example.com; SameSite=None"
    );
}

#[test]
fn host_prefix_requirements() {
    let bad_path = CookieOptions { path: "/x".to_string(), ..CookieOptions::default() };
    match build_set_cookie("v", &bad_path, 0) {
        Err(Error::Validation(m)) => assert_eq!(m, "__Host- cookies must have Path=/"),
        other => panic!("{other:?}"),
    }
    let insecure = CookieOptions { secure: false, ..CookieOptions::default() };
    match build_clear_cookie(&insecure) {
        Err(Error::Validation(m)) => assert_eq!(m, "__Host- cookies must be Secure"),
        other => panic!("{other:?}"),
    }
    let far = CookieOptions { max_age_seconds: Some(u64::MAX), ..CookieOptions::default() };
    assert!(matches!(build_set_cookie("v", &far, 0), Err(Error::Validation(_))));
}
