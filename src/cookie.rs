//! `Set-Cookie` header values for session cookies.

use vstd::prelude::*;
use crate::error::Error;
use crate::number::{decimal, decimal_of};
use crate::text::{matches_at, str_eq};

verus! {

/// The `SameSite` attribute.
#[derive(Debug, Clone, Copy, PartialEq, Eq, Structural)]
pub enum SameSite {
    /// `SameSite=Strict`
    Strict,
    /// `SameSite=Lax`
    Lax,
    /// `SameSite=None`: sent in all contexts.
    NoRestriction,
}

pub open spec fn same_site_text(s: SameSite) -> Seq<char> {
    match s {
        SameSite::Strict => "Strict"@,
        SameSite::Lax => "Lax"@,
        SameSite::NoRestriction => "None"@,
    }
}

impl SameSite {
    /// The attribute value.
    pub fn as_str(self) -> (r: &'static str)
        ensures
            r@ == same_site_text(self),
    {
        match self {
            SameSite::Strict => "Strict",
            SameSite::Lax => "Lax",
            SameSite::NoRestriction => "None",
        }
    }
}

/// Options for a session cookie.
#[derive(Debug, Clone)]
pub struct CookieOptions {
    /// Cookie name, without any prefix.
    pub name: String,
    /// Cookie path.
    pub path: String,
    /// Optional cookie domain.
    pub domain: Option<String>,
    /// Sent over HTTPS only.
    pub secure: bool,
    /// Hidden from scripts.
    pub http_only: bool,
    /// The `SameSite` attribute.
    pub same_site: SameSite,
    /// `Max-Age` in seconds.
    pub max_age_seconds: Option<u64>,
    /// Without a domain, prefix the name with `__Host-`, which requires `Path=/`
    /// and `Secure`.
    pub use_host_prefix: bool,
}

impl Default for CookieOptions {
    fn default() -> (r: Self)
        ensures
            r.name@ == "logline_session"@,
            r.path@ == "/"@,
            r.domain is None,
            r.secure,
            r.http_only,
            r.same_site == SameSite::Lax,
            r.max_age_seconds is None,
            r.use_host_prefix,
    {
        CookieOptions {
            name: String::from_str("logline_session"),
            path: String::from_str("/"),
            domain: None,
            secure: true,
            http_only: true,
            same_site: SameSite::Lax,
            max_age_seconds: None,
            use_host_prefix: true,
        }
    }
}

/// The first instant (seconds since the epoch) that an HTTP date cannot express: year 10000.
pub const HTTP_DATE_LIMIT_SECS: u64 = 253402300800;

/// What `httpdate::fmt_http_date` writes for an instant, in seconds since the epoch.
pub uninterp spec fn http_date_of(secs: u64) -> Seq<char>;

/// Relies on `httpdate::fmt_http_date`, an IMF-fixdate; it panics from year 10000 on.
#[verifier::external_body]
fn http_date(secs: u64) -> (r: String)
    requires
        secs < HTTP_DATE_LIMIT_SECS,
    ensures
        r@ == http_date_of(secs),
{
    httpdate::fmt_http_date(std::time::UNIX_EPOCH + std::time::Duration::from_secs(secs))
}

pub open spec fn host_prefix() -> Seq<char> {
    "__Host-"@
}

/// `s` with the prefix `p` removed as often as it occurs (`str::trim_start_matches`).
pub open spec fn strip_prefixes(s: Seq<char>, p: Seq<char>) -> Seq<char>
    decreases s.len(),
{
    if p.len() > 0 && p.len() <= s.len() && s.subrange(0, p.len() as int) == p {
        strip_prefixes(s.subrange(p.len() as int, s.len() as int), p)
    } else {
        s
    }
}

/// Is the `__Host-` prefix requested and possible (no domain)?
pub open spec fn wants_host_prefix(opts: CookieOptions) -> bool {
    opts.use_host_prefix && opts.domain is None
}

/// The cookie name, or `None` when a `__Host-` cookie lacks `Path=/` or `Secure`.
pub open spec fn cookie_name_of(opts: CookieOptions) -> Option<Seq<char>> {
    if wants_host_prefix(opts) {
        if opts.path@ != "/"@ || !opts.secure {
            None
        } else {
            Some(host_prefix() + strip_prefixes(opts.name@, host_prefix()))
        }
    } else {
        Some(opts.name@)
    }
}

fn strip_prefixes_exec<'a>(s: &'a str, p: &str) -> (r: &'a str)
    ensures
        r@ == strip_prefixes(s@, p@),
{
    let m = p.unicode_len();
    let n = s.unicode_len();
    if m == 0 {
        return s;
    }
    let mut i: usize = 0;
    assert(s@.subrange(0, n as int) == s@);
    while m <= n - i && matches_at(s, i, p)
        invariant
            m == p@.len(),
            n == s@.len(),
            m > 0,
            i <= n,
            strip_prefixes(s@, p@) == strip_prefixes(s@.subrange(i as int, n as int), p@),
        decreases n - i,
    {
        let ghost t = s@.subrange(i as int, n as int);
        assert(t.subrange(0, m as int) == s@.subrange(i as int, i + m));
        assert(t.subrange(m as int, t.len() as int) == s@.subrange(i + m, n as int));
        i = i + m;
    }
    proof {
        let t = s@.subrange(i as int, n as int);
        if m <= t.len() {
            assert(t.subrange(0, m as int) == s@.subrange(i as int, i + m));
        }
    }
    s.substring_char(i, n)
}

/// The cookie name, with `__Host-` requirements enforced.
pub fn cookie_name(opts: &CookieOptions) -> (r: Result<String, Error>)
    ensures
        r is Ok <==> cookie_name_of(*opts) is Some,
        r is Ok ==> r->Ok_0@ == cookie_name_of(*opts)->0,
        r is Err ==> r->Err_0 is Validation,
{
    proof {
        reveal_strlit("/");
        reveal_strlit("__Host-");
    }
    if opts.use_host_prefix && opts.domain.is_none() {
        if !str_eq(opts.path.as_str(), "/") {
            return Err(Error::Validation(String::from_str("__Host- cookies must have Path=/")));
        }
        if !opts.secure {
            return Err(Error::Validation(String::from_str("__Host- cookies must be Secure")));
        }
        let bare = strip_prefixes_exec(opts.name.as_str(), "__Host-");
        Ok(String::from_str("__Host-").concat(bare))
    } else {
        Ok(opts.name.clone())
    }
}

/// The attributes shared by setting and clearing: path, domain, flags, SameSite.
pub open spec fn common_attributes(opts: CookieOptions) -> Seq<char> {
    "; Path="@ + opts.path@ + (if opts.domain is Some {
        "; Domain="@ + opts.domain->0@
    } else {
        Seq::empty()
    }) + (if opts.secure {
        "; Secure"@
    } else {
        Seq::empty()
    }) + (if opts.http_only {
        "; HttpOnly"@
    } else {
        Seq::empty()
    }) + "; SameSite="@ + same_site_text(opts.same_site)
}

fn common_attributes_exec(opts: &CookieOptions) -> (r: String)
    ensures
        r@ == common_attributes(*opts),
{
    let mut out = String::from_str("; Path=");
    out.append(opts.path.as_str());
    if let Some(domain) = &opts.domain {
        out.append("; Domain=");
        out.append(domain.as_str());
    }
    if opts.secure {
        out.append("; Secure");
    }
    if opts.http_only {
        out.append("; HttpOnly");
    }
    out.append("; SameSite=");
    out.append(opts.same_site.as_str());
    out
}

/// Can the `Expires` attribute for this cookie be written, set at `now_secs`?
pub open spec fn expiry_writable(opts: CookieOptions, now_secs: u64) -> bool {
    opts.max_age_seconds is Some ==> now_secs + opts.max_age_seconds->0 < HTTP_DATE_LIMIT_SECS
}

/// The `Set-Cookie` value that sets the cookie to `value` at `now_secs`.
pub open spec fn set_cookie_of(value: Seq<char>, name: Seq<char>, opts: CookieOptions, now_secs: u64) -> Seq<char> {
    name + "="@ + value + common_attributes(opts) + match opts.max_age_seconds {
        Some(m) => "; Max-Age="@ + decimal_of(m as nat) + "; Expires="@ + http_date_of(
            (now_secs + m) as u64,
        ),
        None => Seq::empty(),
    }
}

/// Builds a `Set-Cookie` header value; `now_secs` (seconds since the epoch) dates
/// the `Expires` attribute that accompanies `Max-Age`.
pub fn build_set_cookie(value: &str, opts: &CookieOptions, now_secs: u64) -> (r: Result<String, Error>)
    ensures
        r is Ok <==> (cookie_name_of(*opts) is Some && expiry_writable(*opts, now_secs)),
        r is Ok ==> r->Ok_0@ == set_cookie_of(value@, cookie_name_of(*opts)->0, *opts, now_secs),
        r is Err ==> r->Err_0 is Validation,
{
    let name = cookie_name(opts)?;
    let mut out = name;
    out.append("=");
    out.append(value);
    out.append(common_attributes_exec(opts).as_str());
    if let Some(max_age) = opts.max_age_seconds {
        if max_age >= HTTP_DATE_LIMIT_SECS || now_secs >= HTTP_DATE_LIMIT_SECS - max_age {
            return Err(Error::Validation(String::from_str("Max-Age reaches past year 9999")));
        }
        out.append("; Max-Age=");
        out.append(decimal(max_age).as_str());
        out.append("; Expires=");
        out.append(http_date(now_secs + max_age).as_str());
    }
    Ok(out)
}

/// The `Set-Cookie` value that clears the cookie.
pub open spec fn clear_cookie_of(name: Seq<char>, opts: CookieOptions) -> Seq<char> {
    name + "="@ + common_attributes(opts) + "; Max-Age=0; Expires="@ + http_date_of(0)
}

/// Builds a `Set-Cookie` header value that clears the cookie.
pub fn build_clear_cookie(opts: &CookieOptions) -> (r: Result<String, Error>)
    ensures
        r is Ok <==> cookie_name_of(*opts) is Some,
        r is Ok ==> r->Ok_0@ == clear_cookie_of(cookie_name_of(*opts)->0, *opts),
        r is Err ==> r->Err_0 is Validation,
{
    let name = cookie_name(opts)?;
    let mut out = name;
    out.append("=");
    out.append(common_attributes_exec(opts).as_str());
    out.append("; Max-Age=0; Expires=");
    out.append(http_date(0).as_str());
    Ok(out)
}

} // verus!
