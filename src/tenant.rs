//! Deriving a tenant id from a request host or from a token claim.

use vstd::prelude::*;
use crate::claims::json_field_str;
use crate::text::{before_first, ends_with, has_suffix, str_eq, trim, trim_seq};
use serde_json::Value;

verus! {

/// Where a tenant decision came from.
#[derive(Debug, Clone, Copy, PartialEq, Eq, Structural)]
pub enum TenantSource {
    /// The request host (subdomain).
    Host,
    /// A token claim.
    Claim,
    /// No tenant could be derived.
    Undetermined,
}

/// How tenants are derived.
#[derive(Debug, Clone)]
pub struct TenantConfig {
    /// With root `example.com`, host `acme.example.com` gives tenant `acme`.
    pub host_root: Option<String>,
    /// Claim holding a tenant id, e.g. `tenant_id`.
    pub claim_key: Option<String>,
    /// Try the host before the claim.
    pub prefer_host: bool,
    /// If set, only these tenant ids are accepted.
    pub allow_list: Option<Vec<String>>,
}

impl Default for TenantConfig {
    fn default() -> (r: Self)
        ensures
            r.host_root is None,
            r.claim_key is Some && r.claim_key->0@ == "tenant_id"@,
            r.prefer_host,
            r.allow_list is None,
    {
        TenantConfig {
            host_root: None,
            claim_key: Some(String::from_str("tenant_id")),
            prefer_host: true,
            allow_list: None,
        }
    }
}

/// The outcome of tenant derivation.
#[derive(Debug, Clone)]
pub struct TenantDecision {
    /// Derived tenant id.
    pub tenant_id: Option<String>,
    /// Where it came from.
    pub source: TenantSource,
}

impl TenantDecision {
    /// True if a tenant was derived.
    pub fn is_some(&self) -> (r: bool)
        ensures
            r == self.tenant_id is Some,
    {
        self.tenant_id.is_some()
    }
}

// ---------------------------------------------------------------------------
// Host names.

/// What `str::to_lowercase` gives for a string.
pub uninterp spec fn lowercase_of(s: Seq<char>) -> Seq<char>;

/// Relies on `str::to_lowercase`: Unicode lowercase mapping, a function of the text alone.
#[verifier::external_body]
pub fn to_lowercase(s: &str) -> (r: String)
    ensures
        r@ == lowercase_of(s@),
{
    s.to_lowercase()
}

/// `s` without any leading `c`.
pub open spec fn strip_leading(s: Seq<char>, c: char) -> Seq<char>
    decreases s.len(),
{
    if s.len() > 0 && s[0] == c {
        strip_leading(s.drop_first(), c)
    } else {
        s
    }
}

/// `s` without any trailing `c`.
pub open spec fn strip_trailing(s: Seq<char>, c: char) -> Seq<char>
    decreases s.len(),
{
    if s.len() > 0 && s.last() == c {
        strip_trailing(s.drop_last(), c)
    } else {
        s
    }
}

/// `s` with the suffix `p` removed as often as it occurs (`str::trim_end_matches`).
pub open spec fn strip_suffixes(s: Seq<char>, p: Seq<char>) -> Seq<char>
    decreases s.len(),
{
    if p.len() > 0 && has_suffix(s, p) {
        strip_suffixes(s.subrange(0, s.len() - p.len()), p)
    } else {
        s
    }
}

/// The part of `s` after its last `c` (all of `s` if there is none).
pub open spec fn after_last(s: Seq<char>, c: char) -> Seq<char>
    decreases s.len(),
{
    if s.len() == 0 {
        s
    } else if s.last() == c {
        Seq::empty()
    } else {
        after_last(s.drop_last(), c).push(s.last())
    }
}

/// A tenant label: lowercase ASCII letters, digits and `-`.
pub open spec fn label_ok(t: Seq<char>) -> bool {
    forall|k: int|
        0 <= k < t.len() ==> (('a' <= #[trigger] t[k] && t[k] <= 'z') || ('0' <= t[k] && t[k]
            <= '9') || t[k] == '-')
}

/// The tenant a host names under `root`: the host, trimmed, lowercased and without its
/// port, must end with the root (trimmed, lowercased, leading dots removed) and differ
/// from it; what precedes the root, without trailing dots, must be non-empty, and its
/// last label is the tenant if it is a valid label.
pub open spec fn host_tenant(host: Seq<char>, root: Option<Seq<char>>) -> Option<Seq<char>> {
    match root {
        None => None,
        Some(r0) => lowered_host_tenant(lowercase_of(trim_seq(host)), lowercase_of(trim_seq(r0))),
    }
}

/// `host_tenant` after trimming and lowercasing: the port is cut from the host and
/// leading dots from the root; the host must end with the root and differ from it;
/// what precedes the root, without trailing dots, must be non-empty, and its last
/// label is the tenant if it is a valid label.
pub open spec fn lowered_host_tenant(host: Seq<char>, root: Seq<char>) -> Option<Seq<char>> {
    let h = before_first(host, ':');
    let r = strip_leading(root, '.');
    if h == r || !has_suffix(h, r) {
        None
    } else {
        let prefix = strip_trailing(strip_suffixes(h, r), '.');
        if prefix.len() == 0 {
            None
        } else if label_ok(after_last(prefix, '.')) {
            Some(after_last(prefix, '.'))
        } else {
            None
        }
    }
}

pub(crate) fn before_first_exec(s: &str, c: char) -> (r: &str)
    ensures
        r@ == before_first(s@, c),
{
    let n = s.unicode_len();
    let mut i: usize = 0;
    assert(s@.subrange(0, n as int) == s@);
    assert(s@.subrange(0, 0) + before_first(s@, c) == before_first(s@, c));
    while i < n
        invariant
            n == s@.len(),
            i <= n,
            before_first(s@, c) == s@.subrange(0, i as int) + before_first(s@.subrange(i as int, n as int), c),
        decreases n - i,
    {
        assert(s@.subrange(i as int, n as int).drop_first() == s@.subrange(i + 1, n as int));
        if s.get_char(i) == c {
            assert(s@.subrange(i as int, n as int)[0] == c);
            return s.substring_char(0, i);
        }
        assert(s@.subrange(0, i + 1) == s@.subrange(0, i as int) + seq![s@[i as int]]);
        i = i + 1;
    }
    assert(s@.subrange(0, n as int) == s@);
    s
}

pub(crate) fn strip_leading_exec(s: &str, c: char) -> (r: &str)
    ensures
        r@ == strip_leading(s@, c),
{
    let n = s.unicode_len();
    let mut i: usize = 0;
    assert(s@.subrange(0, n as int) == s@);
    while i < n && s.get_char(i) == c
        invariant
            n == s@.len(),
            i <= n,
            strip_leading(s@, c) == strip_leading(s@.subrange(i as int, n as int), c),
        decreases n - i,
    {
        assert(s@.subrange(i as int, n as int).drop_first() == s@.subrange(i + 1, n as int));
        i = i + 1;
    }
    s.substring_char(i, n)
}

pub(crate) fn strip_trailing_exec(s: &str, c: char) -> (r: &str)
    ensures
        r@ == strip_trailing(s@, c),
{
    let mut j: usize = s.unicode_len();
    assert(s@.subrange(0, j as int) == s@);
    while j > 0 && s.get_char(j - 1) == c
        invariant
            j <= s@.len(),
            strip_trailing(s@, c) == strip_trailing(s@.subrange(0, j as int), c),
        decreases j,
    {
        assert(s@.subrange(0, j - 1) == s@.subrange(0, j as int).drop_last());
        j = j - 1;
    }
    s.substring_char(0, j)
}

pub(crate) fn strip_suffixes_exec<'a>(s: &'a str, p: &str) -> (r: &'a str)
    ensures
        r@ == strip_suffixes(s@, p@),
{
    let m = p.unicode_len();
    if m == 0 {
        return s;
    }
    let mut j: usize = s.unicode_len();
    assert(s@.subrange(0, j as int) == s@);
    while j >= m && crate::text::matches_at(s, j - m, p)
        invariant
            m == p@.len(),
            m > 0,
            j <= s@.len(),
            strip_suffixes(s@, p@) == strip_suffixes(s@.subrange(0, j as int), p@),
        decreases j,
    {
        let ghost t = s@.subrange(0, j as int);
        assert(t.subrange(t.len() - m, t.len() as int) == s@.subrange(j - m, j as int));
        assert(t.subrange(0, t.len() - m) == s@.subrange(0, j - m));
        j = j - m;
    }
    proof {
        let t = s@.subrange(0, j as int);
        if m <= j {
            assert(t.subrange(t.len() - m, t.len() as int) == s@.subrange(j - m, j as int));
        }
    }
    s.substring_char(0, j)
}

pub(crate) fn after_last_exec(s: &str, c: char) -> (r: &str)
    ensures
        r@ == after_last(s@, c),
{
    let n = s.unicode_len();
    let mut j: usize = n;
    assert(s@.subrange(0, n as int) == s@);
    while j > 0 && s.get_char(j - 1) != c
        invariant
            n == s@.len(),
            j <= n,
            after_last(s@, c) == after_last(s@.subrange(0, j as int), c) + s@.subrange(j as int, n as int),
        decreases j,
    {
        let ghost t = s@.subrange(0, j as int);
        assert(t.drop_last() == s@.subrange(0, j - 1));
        assert(s@.subrange(j - 1, n as int) == seq![t.last()] + s@.subrange(j as int, n as int));
        assert(after_last(t, c) == after_last(t.drop_last(), c).push(t.last()));
        j = j - 1;
    }
    s.substring_char(j, n)
}

fn label_ok_exec(t: &str) -> (r: bool)
    ensures
        r == label_ok(t@),
{
    let n = t.unicode_len();
    let mut i: usize = 0;
    while i < n
        invariant
            n == t@.len(),
            i <= n,
            forall|k: int|
                0 <= k < i ==> (('a' <= #[trigger] t@[k] && t@[k] <= 'z') || ('0' <= t@[k]
                    && t@[k] <= '9') || t@[k] == '-'),
        decreases n - i,
    {
        let c = t.get_char(i);
        if !(('a' <= c && c <= 'z') || ('0' <= c && c <= '9') || c == '-') {
            return false;
        }
        i = i + 1;
    }
    true
}

/// The tenant named by a request host under `host_root` (see `host_tenant`).
pub fn derive_from_host(host: &str, host_root: Option<&str>) -> (r: Option<String>)
    ensures
        opt_view(r) == host_tenant(
            host@,
            match host_root {
                Some(s) => Some(s@),
                None => None,
            },
        ),
{
    let root_raw = match host_root {
        Some(r) => r,
        None => return None,
    };
    let lowered = to_lowercase(trim(host));
    let root_lowered = to_lowercase(trim(root_raw));
    tenant_from_lowered(lowered.as_str(), root_lowered.as_str())
}

/// The tenant a trimmed, lowercased host names under a trimmed, lowercased root.
pub fn tenant_from_lowered(host: &str, root: &str) -> (r: Option<String>)
    ensures
        opt_view(r) == lowered_host_tenant(host@, root@),
{
    let h = before_first_exec(host, ':');
    let root = strip_leading_exec(root, '.');
    if str_eq(h, root) {
        return None;
    }
    if !ends_with(h, root) {
        return None;
    }
    let prefix = strip_trailing_exec(strip_suffixes_exec(h, root), '.');
    if prefix.unicode_len() == 0 {
        return None;
    }
    let tenant = after_last_exec(prefix, '.');
    if label_ok_exec(tenant) {
        Some(String::from_str(tenant))
    } else {
        None
    }
}

/// The tenant named by a string claim under `claim_key`.
pub fn derive_from_claims(claims: &Value, claim_key: Option<&str>) -> Option<String> {
    match claim_key {
        Some(key) => json_field_str(claims, key),
        None => None,
    }
}

// ---------------------------------------------------------------------------
// The decision.

pub open spec fn in_allow_list(t: Seq<char>, allow: Option<Vec<String>>) -> bool {
    match allow {
        None => true,
        Some(list) => exists|k: int| 0 <= k < list@.len() && #[trigger] list@[k]@ == t,
    }
}

pub open spec fn opt_view(o: Option<String>) -> Option<Seq<char>> {
    match o {
        Some(s) => Some(s@),
        None => None,
    }
}

/// The preferred candidate and its source.
pub open spec fn preferred(
    host_t: Option<Seq<char>>,
    claim_t: Option<Seq<char>>,
    prefer_host: bool,
) -> (Option<Seq<char>>, TenantSource) {
    if prefer_host {
        if host_t is Some {
            (host_t, TenantSource::Host)
        } else if claim_t is Some {
            (claim_t, TenantSource::Claim)
        } else {
            (None, TenantSource::Undetermined)
        }
    } else {
        if claim_t is Some {
            (claim_t, TenantSource::Claim)
        } else if host_t is Some {
            (host_t, TenantSource::Host)
        } else {
            (None, TenantSource::Undetermined)
        }
    }
}

/// The decision from a host-derived and a claim-derived candidate: the preferred one,
/// dropped if an allow-list is configured and does not hold it.
pub open spec fn decision(
    host_t: Option<Seq<char>>,
    claim_t: Option<Seq<char>>,
    cfg: TenantConfig,
) -> (Option<Seq<char>>, TenantSource) {
    let (t, src) = preferred(host_t, claim_t, cfg.prefer_host);
    let kept = if t is Some && !in_allow_list(t->0, cfg.allow_list) {
        None
    } else {
        t
    };
    (kept, if kept is Some { src } else { TenantSource::Undetermined })
}

/// The host-derived candidate, if a host was given.
pub open spec fn host_candidate(host: Option<&str>, root: Option<String>) -> Option<Seq<char>> {
    match host {
        Some(h) => host_tenant(h@, opt_view(root)),
        None => None,
    }
}

impl TenantDecision {
    pub open spec fn outcome(self) -> (Option<Seq<char>>, TenantSource) {
        (opt_view(self.tenant_id), self.source)
    }
}

fn allow_list_holds(list: &Vec<String>, t: &String) -> (r: bool)
    ensures
        r == (exists|k: int| 0 <= k < list@.len() && #[trigger] list@[k]@ == t@),
{
    let mut i: usize = 0;
    while i < list.len()
        invariant
            i <= list@.len(),
            forall|k: int| 0 <= k < i ==> #[trigger] list@[k]@ != t@,
        decreases list@.len() - i,
    {
        if str_eq(list[i].as_str(), t.as_str()) {
            return true;
        }
        i = i + 1;
    }
    false
}

/// Chooses between a host-derived and a claim-derived tenant.
pub fn decide_tenant(host_t: Option<String>, claim_t: Option<String>, cfg: &TenantConfig) -> (r:
    TenantDecision)
    ensures
        r.outcome() == decision(opt_view(host_t), opt_view(claim_t), *cfg),
{
    let ghost h0 = opt_view(host_t);
    let ghost c0 = opt_view(claim_t);
    let (t, src) = if cfg.prefer_host {
        if host_t.is_some() {
            (host_t, TenantSource::Host)
        } else if claim_t.is_some() {
            (claim_t, TenantSource::Claim)
        } else {
            (None, TenantSource::Undetermined)
        }
    } else {
        if claim_t.is_some() {
            (claim_t, TenantSource::Claim)
        } else if host_t.is_some() {
            (host_t, TenantSource::Host)
        } else {
            (None, TenantSource::Undetermined)
        }
    };
    assert((opt_view(t), src) == preferred(h0, c0, cfg.prefer_host));
    let kept = match t {
        Some(id) => {
            let ok = match &cfg.allow_list {
                Some(list) => allow_list_holds(list, &id),
                None => true,
            };
            if ok {
                Some(id)
            } else {
                None
            }
        },
        None => None,
    };
    let source = if kept.is_some() {
        src
    } else {
        TenantSource::Undetermined
    };
    TenantDecision { tenant_id: kept, source }
}

/// Derives a tenant id from the host and/or the claims. With `prefer_host` the host is
/// tried first; an allow-list, if set, must hold the derived id.
pub fn derive_tenant(host: Option<&str>, claims: &Value, cfg: &TenantConfig) -> (r: TenantDecision)
    ensures
        exists|claim_t: Option<Seq<char>>|
            r.outcome() == #[trigger] decision(host_candidate(host, cfg.host_root), claim_t, *cfg),
{
    let host_t = match host {
        Some(h) => {
            let root = match &cfg.host_root {
                Some(r) => Some(r.as_str()),
                None => None,
            };
            derive_from_host(h, root)
        },
        None => None,
    };
    let claim_key = match &cfg.claim_key {
        Some(k) => Some(k.as_str()),
        None => None,
    };
    let claim_t = derive_from_claims(claims, claim_key);
    let ghost claim_view = opt_view(claim_t);
    let r = decide_tenant(host_t, claim_t, cfg);
    assert(r.outcome() == decision(host_candidate(host, cfg.host_root), claim_view, *cfg));
    r
}

} // verus!
