//! The verifier facade: header gates, key-set resolution with caching and OIDC
//! discovery, then signature and claims verification.
//!
//! Network fetches and JSON decoding happen outside the library. A call that needs
//! one returns the request to make; the caller performs it and hands back the
//! response and the document it decoded.

use vstd::prelude::*;
use crate::cache::ExpiringCache;
use crate::cache_control::{
    cache_control_max_age, compute_ttl_seconds, parse_cache_control_max_age, ttl_seconds,
};
use crate::claims::{audience_accepted, issuer_accepted, TokenHeader, VerifiedJwt};
use crate::tenant::opt_view;
use crate::error::Error;
use crate::jwk::{Jwk, JwksSet, JwksSource};
use crate::number::{decimal, decimal_of};
use crate::text::has_prefix;
use crate::verify::{
    check_header, decode_token_header, header_error_prefix, kid_absent, kid_missing, token_header_of,
    verify_against_jwks, VerifyOptions,
};

verus! {

/// The status line and caching header of an HTTP response.
#[derive(Debug, Clone)]
pub struct FetchResponse {
    /// HTTP status code.
    pub status: u16,
    /// Its reason phrase, for error messages.
    pub reason: String,
    /// The `Cache-Control` header, if present and readable as text.
    pub cache_control: Option<String>,
}

/// A key set fetch the caller must perform before verification can finish.
#[derive(Debug, Clone)]
pub struct PendingFetch {
    /// URL to GET.
    pub url: String,
    /// The token header, already through the gates.
    pub header: TokenHeader,
}

/// A key-set document the caller must decode before verification can finish.
#[derive(Debug, Clone)]
pub struct PendingParse {
    /// The JSON text of the key set.
    pub text: String,
    /// The token header, already through the gates.
    pub header: TokenHeader,
}

/// Where a verification call stands.
#[derive(Debug)]
pub enum VerifyStep {
    /// Verification is over.
    Done(Result<VerifiedJwt, Error>),
    /// The key set must be fetched and decoded; then call `finish_with_fetched`.
    Fetch(PendingFetch),
    /// The key set must be decoded; then call `finish_with_keys`.
    Parse(PendingParse),
}

/// Where a key-set resolution stands.
#[derive(Debug, Clone)]
pub enum JwksResolution {
    /// The key set is at hand.
    Ready(JwksSet),
    /// It must be fetched from this URL; then call `accept_fetched_jwks`.
    Fetch(String),
    /// It must be decoded from this JSON text.
    Parse(String),
}

/// Where an OIDC discovery stands.
#[derive(Debug, Clone)]
pub enum DiscoveryStep {
    /// The `jwks_uri` is known.
    Ready(String),
    /// This discovery document must be fetched; then call `accept_discovery`.
    Fetch(String),
}

/// The error message for a response whose status is not a success.
pub open spec fn fetch_failure_text(response: FetchResponse) -> Seq<char> {
    "fetch failed: "@ + decimal_of(response.status as nat) + " "@ + response.reason@
}

fn fetch_failure(response: &FetchResponse) -> (r: Error)
    ensures
        r is Jwks && r->Jwks_0@ == fetch_failure_text(*response),
{
    let mut msg = String::from_str("fetch failed: ");
    msg.append(decimal(response.status as u64).as_str());
    msg.append(" ");
    msg.append(response.reason.as_str());
    Error::Jwks(msg)
}

/// Is the status a success (2xx)?
pub open spec fn status_ok(status: u16) -> bool {
    200 <= status <= 299
}

/// The `max-age` a response grants through its `Cache-Control` header.
pub open spec fn granted_max_age(cache_control: Option<String>) -> Option<u64> {
    match cache_control {
        Some(cc) => cache_control_max_age(cc@),
        None => None,
    }
}

/// The instant, in ms, until which a document fetched at `now_ms` may be reused.
pub open spec fn expiry_instant(now_ms: u64, ttl_seconds: u64) -> u64 {
    if now_ms + ttl_seconds * 1000 <= u64::MAX {
        (now_ms + ttl_seconds * 1000) as u64
    } else {
        u64::MAX
    }
}

pub fn compute_expiry_instant(now_ms: u64, ttl_seconds: u64) -> (r: u64)
    ensures
        r == expiry_instant(now_ms, ttl_seconds),
{
    match ttl_seconds.checked_mul(1000) {
        Some(ms) => match now_ms.checked_add(ms) {
            Some(t) => t,
            None => u64::MAX,
        },
        None => u64::MAX,
    }
}

fn max_age_of(cache_control: &Option<String>) -> (r: Option<u64>)
    ensures
        r == granted_max_age(*cache_control),
{
    match cache_control {
        Some(cc) => parse_cache_control_max_age(cc.as_str()),
        None => None,
    }
}

/// `s` with every trailing `/` removed.
pub open spec fn strip_trailing_slashes(s: Seq<char>) -> Seq<char>
    decreases s.len(),
{
    if s.len() > 0 && s.last() == '/' {
        strip_trailing_slashes(s.drop_last())
    } else {
        s
    }
}

pub open spec fn well_known_suffix() -> Seq<char> {
    "/.well-known/openid-configuration"@
}

/// The discovery document URL of an issuer.
pub open spec fn discovery_url_of(issuer: Seq<char>) -> Seq<char> {
    strip_trailing_slashes(issuer) + well_known_suffix()
}

pub fn discovery_url(issuer: &str) -> (r: String)
    ensures
        r@ == discovery_url_of(issuer@),
{
    let mut j: usize = issuer.unicode_len();
    assert(issuer@.subrange(0, j as int) == issuer@);
    while j > 0 && issuer.get_char(j - 1) == '/'
        invariant
            j <= issuer@.len(),
            strip_trailing_slashes(issuer@) == strip_trailing_slashes(issuer@.subrange(0, j as int)),
        decreases j,
    {
        assert(issuer@.subrange(0, j - 1) == issuer@.subrange(0, j as int).drop_last());
        j = j - 1;
    }
    let base = String::from_str(issuer.substring_char(0, j));
    base.concat("/.well-known/openid-configuration")
}

/// Verifies tokens against key sets; owns the key-set and discovery caches.
pub struct JwtVerifier {
    jwks_cache: ExpiringCache<JwksSet>,
    discovery_cache: ExpiringCache<String>,
}

impl Default for JwtVerifier {
    fn default() -> (r: Self)
        ensures
            r.jwks_entries() == Map::<Seq<char>, (u64, JwksSet)>::empty(),
            r.discovery_entries() == Map::<Seq<char>, (u64, String)>::empty(),
    {
        JwtVerifier::new()
    }
}

impl JwtVerifier {
    /// Cached key sets by URL: (expiry instant in ms, key set).
    pub closed spec fn jwks_entries(&self) -> Map<Seq<char>, (u64, JwksSet)> {
        self.jwks_cache.contents()
    }

    /// Cached `jwks_uri`s by discovery URL: (expiry instant in ms, URL).
    pub closed spec fn discovery_entries(&self) -> Map<Seq<char>, (u64, String)> {
        self.discovery_cache.contents()
    }

    /// Is a key set cached for `url` with an expiry after `now_ms`?
    pub open spec fn jwks_fresh(&self, url: Seq<char>, now_ms: u64) -> bool {
        self.jwks_entries().contains_key(url) && now_ms < self.jwks_entries()[url].0
    }

    pub open spec fn discovery_fresh(&self, url: Seq<char>, now_ms: u64) -> bool {
        self.discovery_entries().contains_key(url) && now_ms < self.discovery_entries()[url].0
    }

    pub fn new() -> (r: Self)
        ensures
            r.jwks_entries() == Map::<Seq<char>, (u64, JwksSet)>::empty(),
            r.discovery_entries() == Map::<Seq<char>, (u64, String)>::empty(),
    {
        JwtVerifier { jwks_cache: ExpiringCache::new(), discovery_cache: ExpiringCache::new() }
    }

    /// Obtains the key set of a source. A literal set is copied; a JSON document must
    /// be decoded by the caller; a URL is served from the cache while its entry is
    /// fresh, and otherwise must be fetched.
    pub fn resolve_jwks(&self, source: &JwksSource, now_ms: u64) -> (r: JwksResolution)
        ensures
            source is Keys ==> (r is Ready && r->Ready_0@ == source->Keys_0@),
            source is Json ==> (r is Parse && r->Parse_0@ == source->Json_0@),
            source is Url && self.jwks_fresh(source->Url_0@, now_ms) ==> (r is Ready
                && r->Ready_0@ == self.jwks_entries()[source->Url_0@].1@),
            source is Url && !self.jwks_fresh(source->Url_0@, now_ms) ==> (r is Fetch
                && r->Fetch_0@ == source->Url_0@),
    {
        match source {
            JwksSource::Keys(set) => JwksResolution::Ready(set.duplicate()),
            JwksSource::Json(json) => JwksResolution::Parse(json.clone()),
            JwksSource::Url(url) => match self.jwks_cache.get_fresh(url.as_str(), now_ms) {
                Some(set) => JwksResolution::Ready(set.duplicate()),
                None => JwksResolution::Fetch(url.clone()),
            },
        }
    }

    /// Takes in a key-set fetch: its response and the key set decoded from its body.
    /// A non-2xx status is a `Jwks` error naming the status; a body that did not
    /// decode gives the decoding error; either way the cache is left as it was.
    /// Otherwise the set is cached under `url` for `min(max-age or 300 s,
    /// max_jwks_age_seconds)`, replacing any earlier entry, and returned.
    pub fn accept_fetched_jwks(
        &mut self,
        url: &str,
        response: &FetchResponse,
        parsed: Result<JwksSet, Error>,
        opts: &VerifyOptions,
        now_ms: u64,
    ) -> (r: Result<JwksSet, Error>)
        ensures
            !status_ok(response.status) ==> r is Err && r->Err_0 is Jwks && r->Err_0->Jwks_0@
                == fetch_failure_text(*response),
            status_ok(response.status) && parsed is Err ==> r is Err && r->Err_0 == parsed->Err_0,
            r is Err ==> final(self).jwks_entries() == old(self).jwks_entries(),
            status_ok(response.status) && parsed is Ok ==> ({
                let set = final(self).jwks_entries()[url@].1;
                &&& r is Ok && r->Ok_0@ == parsed->Ok_0@
                &&& set@ == parsed->Ok_0@
                &&& final(self).jwks_entries() == old(self).jwks_entries().insert(
                    url@,
                    (
                        expiry_instant(
                            now_ms,
                            ttl_seconds(
                                granted_max_age(response.cache_control),
                                opts.max_jwks_age_seconds,
                            ),
                        ),
                        set,
                    ),
                )
            }),
            final(self).discovery_entries() == old(self).discovery_entries(),
    {
        if !(200 <= response.status && response.status <= 299) {
            return Err(fetch_failure(response));
        }
        let set = match parsed {
            Ok(s) => s,
            Err(e) => return Err(e),
        };
        let ttl = compute_ttl_seconds(max_age_of(&response.cache_control), opts.max_jwks_age_seconds);
        let expires = compute_expiry_instant(now_ms, ttl);
        let kept = set.duplicate();
        self.jwks_cache.put(String::from_str(url), expires, set);
        Ok(kept)
    }

    /// Verifies a token against a key source: decodes the header (a malformed
    /// token is an `InvalidJwt` error), applies the algorithm allow-list and then
    /// the key-id requirement, and only then resolves the key set and verifies.
    /// When the key set must be fetched or decoded, the call returns that request.
    pub fn verify_with_source(
        &self,
        token: &str,
        source: &JwksSource,
        opts: &VerifyOptions,
        now_ms: u64,
    ) -> (r: VerifyStep)
        ensures
            token_header_of(token@) is None ==> (r is Done && r->Done_0 is Err && r->Done_0->Err_0 is InvalidJwt
                && has_prefix(r->Done_0->Err_0->InvalidJwt_0@, header_error_prefix())),
            match token_header_of(token@) {
                Some((a, k)) => if !opts.allowed_algs@.contains(a) {
                    r is Done && r->Done_0 == Err::<VerifiedJwt, Error>(Error::UnsupportedAlg(a))
                } else if opts.require_kid && kid_absent(k) {
                    r is Done && r->Done_0 is Err && r->Done_0->Err_0 is InvalidJwt
                        && r->Done_0->Err_0->InvalidJwt_0@ == "missing kid"@
                } else {
                    &&& source is Keys ==> r is Done
                    &&& source is Json ==> r is Parse && r->Parse_0.text@ == source->Json_0@
                    &&& source is Url && self.jwks_fresh(source->Url_0@, now_ms) ==> r is Done
                    &&& source is Url && !self.jwks_fresh(source->Url_0@, now_ms) ==> r is Fetch
                        && r->Fetch_0.url@ == source->Url_0@
                    &&& r is Fetch ==> r->Fetch_0.header.alg == a && opt_view(r->Fetch_0.header.kid) == k
                    &&& r is Parse ==> r->Parse_0.header.alg == a && opt_view(r->Parse_0.header.kid) == k
                },
                None => true,
            },
            r is Done && r->Done_0 is Ok ==> ({
                let v = r->Done_0->Ok_0;
                &&& opts.allowed_algs@.contains(v.header.alg)
                &&& !(opts.require_kid && kid_missing(v.header.kid))
                &&& issuer_accepted(opts.issuer, v.issuer)
                &&& audience_accepted(opts.audience, v.audience)
            }),
    {
        let header = match decode_token_header(token) {
            Ok(h) => h,
            Err(e) => return VerifyStep::Done(Err(e)),
        };
        if let Err(e) = check_header(&header, opts) {
            return VerifyStep::Done(Err(e));
        }
        match self.resolve_jwks(source, now_ms) {
            JwksResolution::Ready(set) => VerifyStep::Done(verify_against_jwks(token, &header, &set, opts)),
            JwksResolution::Fetch(url) => VerifyStep::Fetch(PendingFetch { url, header }),
            JwksResolution::Parse(text) => VerifyStep::Parse(PendingParse { text, header }),
        }
    }

    /// `verify_with_source` with the options' key-set URL as the source.
    pub fn verify_with_jwks_url(&self, token: &str, opts: &VerifyOptions, now_ms: u64) -> (r:
        VerifyStep)
        ensures
            token_header_of(token@) is None ==> (r is Done && r->Done_0 is Err && r->Done_0->Err_0 is InvalidJwt
                && has_prefix(r->Done_0->Err_0->InvalidJwt_0@, header_error_prefix())),
            match token_header_of(token@) {
                Some((a, k)) => if !opts.allowed_algs@.contains(a) {
                    r is Done && r->Done_0 == Err::<VerifiedJwt, Error>(Error::UnsupportedAlg(a))
                } else if opts.require_kid && kid_absent(k) {
                    r is Done && r->Done_0 is Err && r->Done_0->Err_0 is InvalidJwt
                        && r->Done_0->Err_0->InvalidJwt_0@ == "missing kid"@
                } else {
                    &&& self.jwks_fresh(opts.jwks_url@, now_ms) ==> r is Done
                    &&& !self.jwks_fresh(opts.jwks_url@, now_ms) ==> r is Fetch
                        && r->Fetch_0.url@ == opts.jwks_url@
                    &&& r is Fetch ==> r->Fetch_0.header.alg == a && opt_view(r->Fetch_0.header.kid) == k
                },
                None => true,
            },
            !(r is Parse),
            r is Done && r->Done_0 is Ok ==> ({
                let v = r->Done_0->Ok_0;
                &&& opts.allowed_algs@.contains(v.header.alg)
                &&& !(opts.require_kid && kid_missing(v.header.kid))
                &&& issuer_accepted(opts.issuer, v.issuer)
                &&& audience_accepted(opts.audience, v.audience)
            }),
    {
        let source = JwksSource::Url(opts.jwks_url.clone());
        self.verify_with_source(token, &source, opts, now_ms)
    }

    /// Completes a verification that needed a fetch: a failed request is returned as
    /// it is, a bad response as `accept_fetched_jwks` says; otherwise the fetched set
    /// is cached and the token verified against it.
    pub fn finish_with_fetched(
        &mut self,
        token: &str,
        pending: &PendingFetch,
        fetched: Result<FetchResponse, Error>,
        parsed: Result<JwksSet, Error>,
        opts: &VerifyOptions,
        now_ms: u64,
    ) -> (r: Result<VerifiedJwt, Error>)
        ensures
            fetched is Err ==> r is Err && r->Err_0 == fetched->Err_0 && final(self).jwks_entries()
                == old(self).jwks_entries(),
            fetched is Ok && !status_ok(fetched->Ok_0.status) ==> r is Err && r->Err_0 is Jwks
                && r->Err_0->Jwks_0@ == fetch_failure_text(fetched->Ok_0)
                && final(self).jwks_entries() == old(self).jwks_entries(),
            fetched is Ok && status_ok(fetched->Ok_0.status) && parsed is Err ==> r is Err
                && r->Err_0 == parsed->Err_0 && final(self).jwks_entries() == old(self).jwks_entries(),
            fetched is Ok && status_ok(fetched->Ok_0.status) && parsed is Ok ==> ({
                let set = final(self).jwks_entries()[pending.url@].1;
                &&& set@ == parsed->Ok_0@
                &&& final(self).jwks_entries() == old(self).jwks_entries().insert(
                    pending.url@,
                    (
                        expiry_instant(
                            now_ms,
                            ttl_seconds(
                                granted_max_age(fetched->Ok_0.cache_control),
                                opts.max_jwks_age_seconds,
                            ),
                        ),
                        set,
                    ),
                )
            }),
            r is Ok ==> ({
                let v = r->Ok_0;
                &&& v.header == pending.header
                &&& issuer_accepted(opts.issuer, v.issuer)
                &&& audience_accepted(opts.audience, v.audience)
            }),
    {
        let response = match fetched {
            Ok(d) => d,
            Err(e) => return Err(e),
        };
        let set = self.accept_fetched_jwks(pending.url.as_str(), &response, parsed, opts, now_ms)?;
        verify_against_jwks(token, &pending.header, &set, opts)
    }

    /// Completes a verification whose key set the caller decoded.
    pub fn finish_with_keys(
        &self,
        token: &str,
        pending: &PendingParse,
        parsed: Result<JwksSet, Error>,
        opts: &VerifyOptions,
    ) -> (r: Result<VerifiedJwt, Error>)
        ensures
            parsed is Err ==> r is Err && r->Err_0 == parsed->Err_0,
            r is Ok ==> ({
                let v = r->Ok_0;
                &&& v.header == pending.header
                &&& issuer_accepted(opts.issuer, v.issuer)
                &&& audience_accepted(opts.audience, v.audience)
            }),
    {
        let set = match parsed {
            Ok(s) => s,
            Err(e) => return Err(e),
        };
        verify_against_jwks(token, &pending.header, &set, opts)
    }

    /// Resolves an issuer to its `jwks_uri` through OpenID discovery: the issuer's
    /// trailing slashes are stripped and `/.well-known/openid-configuration` appended.
    /// A fresh cache entry answers at once; otherwise that document must be fetched.
    pub fn resolve_oidc_jwks_url(&self, issuer: &str, now_ms: u64) -> (r: DiscoveryStep)
        ensures
            self.discovery_fresh(discovery_url_of(issuer@), now_ms) ==> (r is Ready && r->Ready_0@
                == self.discovery_entries()[discovery_url_of(issuer@)].1@),
            !self.discovery_fresh(discovery_url_of(issuer@), now_ms) ==> (r is Fetch
                && r->Fetch_0@ == discovery_url_of(issuer@)),
    {
        let url = discovery_url(issuer);
        match self.discovery_cache.get_fresh(url.as_str(), now_ms) {
            Some(uri) => DiscoveryStep::Ready(uri.clone()),
            None => DiscoveryStep::Fetch(url),
        }
    }

    /// Takes in a discovery fetch: its response and the `jwks_uri` string the caller
    /// read from its JSON body (`None` when absent or not a string). A non-2xx
    /// status, an undecodable body or a missing `jwks_uri` is an error and leaves the
    /// cache as it was; otherwise the URI is cached like a key set and returned.
    pub fn accept_discovery(
        &mut self,
        discovery_url: &str,
        response: &FetchResponse,
        jwks_uri: Result<Option<String>, Error>,
        max_age_seconds: u64,
        now_ms: u64,
    ) -> (r: Result<String, Error>)
        ensures
            !status_ok(response.status) ==> r is Err && r->Err_0 is Jwks && r->Err_0->Jwks_0@
                == fetch_failure_text(*response),
            status_ok(response.status) && jwks_uri is Err ==> r is Err && r->Err_0 == jwks_uri->Err_0,
            status_ok(response.status) && jwks_uri == Ok::<Option<String>, Error>(None) ==> r is Err
                && r->Err_0 is Jwks && r->Err_0->Jwks_0@ == "OIDC discovery missing jwks_uri"@,
            r is Err ==> final(self).discovery_entries() == old(self).discovery_entries(),
            status_ok(response.status) && jwks_uri is Ok && jwks_uri->Ok_0 is Some ==> ({
                let uri = jwks_uri->Ok_0->0;
                let cached = final(self).discovery_entries()[discovery_url@].1;
                &&& r == Ok::<String, Error>(uri)
                &&& cached@ == uri@
                &&& final(self).discovery_entries() == old(self).discovery_entries().insert(
                    discovery_url@,
                    (
                        expiry_instant(
                            now_ms,
                            ttl_seconds(granted_max_age(response.cache_control), max_age_seconds),
                        ),
                        cached,
                    ),
                )
            }),
            final(self).jwks_entries() == old(self).jwks_entries(),
    {
        if !(200 <= response.status && response.status <= 299) {
            return Err(fetch_failure(response));
        }
        let uri = match jwks_uri {
            Err(e) => return Err(e),
            Ok(None) => {
                proof {
                    reveal_strlit("OIDC discovery missing jwks_uri");
                }
                return Err(Error::Jwks(String::from_str("OIDC discovery missing jwks_uri")));
            },
            Ok(Some(u)) => u,
        };
        let ttl = compute_ttl_seconds(max_age_of(&response.cache_control), max_age_seconds);
        let expires = compute_expiry_instant(now_ms, ttl);
        self.discovery_cache.put(String::from_str(discovery_url), expires, uri.clone());
        Ok(uri)
    }
}

/// A key set fetched and cached under `url` until `expires_at_ms` is served again,
/// with the same keys, by every lookup made before that instant: no second fetch.
pub proof fn lemma_fetched_then_served(
    before: JwtVerifier,
    after: JwtVerifier,
    url: Seq<char>,
    expires_at_ms: u64,
    fetched: Seq<Jwk>,
    now_ms: u64,
)
    requires
        after.jwks_entries() == before.jwks_entries().insert(
            url,
            (expires_at_ms, after.jwks_entries()[url].1),
        ),
        after.jwks_entries()[url].1@ == fetched,
        now_ms < expires_at_ms,
    ensures
        after.jwks_fresh(url, now_ms),
        after.jwks_entries()[url].1@ == fetched,
{
}

/// Once the cached entry has expired, a lookup asks for exactly one fetch of that URL.
pub proof fn lemma_expired_jwks_refetched(v: JwtVerifier, url: Seq<char>, now_ms: u64)
    requires
        v.jwks_entries().contains_key(url),
        now_ms >= v.jwks_entries()[url].0,
    ensures
        !v.jwks_fresh(url, now_ms),
{
}

} // verus!
