//! Signature and claims verification of one token against a resolved key set.

use vstd::prelude::*;
use crate::claims::{
    audience_accepted, check_issuer_audience, issuer_accepted, TokenHeader, VerifiedJwt,
};
use crate::error::Error;
use crate::jwk::{decoding_key_from_jwk, jwk_decodes, jwt_error_text, Algorithm, Jwk, JwksSet};
use crate::tenant::opt_view;
use crate::text::has_prefix;
use jsonwebtoken::errors::Error as JwtError;
use jsonwebtoken::Algorithm as Alg;
use serde_json::Value;

verus! {

/// Options for verifying one token.
#[derive(Debug, Clone)]
pub struct VerifyOptions {
    /// URL of the key set.
    pub jwks_url: String,
    /// Expected issuer (`iss`).
    pub issuer: Option<String>,
    /// Expected audience (`aud`).
    pub audience: Option<String>,
    /// Algorithms a token header may name.
    pub allowed_algs: Vec<Algorithm>,
    /// Clock-skew tolerance for `exp` and `nbf`, in seconds.
    pub leeway_seconds: u64,
    /// Upper bound on how long a fetched key set is reused, in seconds.
    pub max_jwks_age_seconds: u64,
    /// Reject tokens whose header carries no key id.
    pub require_kid: bool,
}

impl Default for VerifyOptions {
    fn default() -> (r: Self)
        ensures
            r.jwks_url@.len() == 0,
            r.issuer is None,
            r.audience is None,
            r.allowed_algs@ == seq![Algorithm::RS256, Algorithm::ES256, Algorithm::EdDSA],
            r.leeway_seconds == 60,
            r.max_jwks_age_seconds == 300,
            !r.require_kid,
    {
        VerifyOptions {
            jwks_url: String::new(),
            issuer: None,
            audience: None,
            allowed_algs: vec![Algorithm::RS256, Algorithm::ES256, Algorithm::EdDSA],
            leeway_seconds: 60,
            max_jwks_age_seconds: 300,
            require_kid: false,
        }
    }
}

// ---------------------------------------------------------------------------
// Outside items: jsonwebtoken's header decoding and signature check.

#[verifier::external_type_specification]
#[verifier::external_body]
pub struct ExAlg(Alg);

/// The algorithm and key id that `jsonwebtoken::decode_header` reads from a token's
/// header segment; `None` when the token is not three segments or the header does not decode.
pub uninterp spec fn token_header_of(token: Seq<char>) -> Option<(Algorithm, Option<Seq<char>>)>;

/// Relies on `jsonwebtoken::decode_header`, which depends on the token alone, and on the
/// `alg` (variant for variant), `kid` and `typ` fields of the `Header` it returns.
#[verifier::external_body]
fn decode_header_fields(token: &str) -> (r: Result<(Algorithm, Option<String>, Option<String>), JwtError>)
    ensures
        match (r, token_header_of(token@)) {
            (Ok((alg, kid, _)), Some((a, k))) => alg == a && opt_view(kid) == k,
            (Err(_), None) => true,
            _ => false,
        },
{
    let h = jsonwebtoken::decode_header(token)?;
    let alg = match h.alg {
        Alg::HS256 => Algorithm::HS256, Alg::HS384 => Algorithm::HS384, Alg::HS512 => Algorithm::HS512,
        Alg::ES256 => Algorithm::ES256, Alg::ES384 => Algorithm::ES384, Alg::RS256 => Algorithm::RS256,
        Alg::RS384 => Algorithm::RS384, Alg::RS512 => Algorithm::RS512, Alg::PS256 => Algorithm::PS256,
        Alg::PS384 => Algorithm::PS384, Alg::PS512 => Algorithm::PS512, Alg::EdDSA => Algorithm::EdDSA,
    };
    Ok((alg, h.kid, h.typ))
}

/// Relies on `jsonwebtoken::Algorithm`, variant for variant.
#[verifier::external_body]
fn outside_alg(a: Algorithm) -> Alg {
    match a {
        Algorithm::HS256 => Alg::HS256,
        Algorithm::HS384 => Alg::HS384,
        Algorithm::HS512 => Alg::HS512,
        Algorithm::ES256 => Alg::ES256,
        Algorithm::ES384 => Alg::ES384,
        Algorithm::RS256 => Alg::RS256,
        Algorithm::RS384 => Alg::RS384,
        Algorithm::RS512 => Alg::RS512,
        Algorithm::PS256 => Alg::PS256,
        Algorithm::PS384 => Alg::PS384,
        Algorithm::PS512 => Alg::PS512,
        Algorithm::EdDSA => Alg::EdDSA,
    }
}

/// Largest leeway handed to the token library; its `exp`/`nbf` checks compute
/// `now - leeway` and `now + leeway` in `u64`, which this keeps from overflowing.
pub const MAX_LEEWAY_SECONDS: u64 = 1_000_000_000;

/// Relies on `jsonwebtoken::decode` with a `Validation` for `alg` carrying these
/// settings: it checks the signature, then `exp` / `nbf` against the clock.
#[verifier::external_body]
fn decode_claims(
    token: &str,
    key: &jsonwebtoken::DecodingKey,
    alg: Alg,
    leeway: u64,
    validate_exp: bool,
    validate_nbf: bool,
    validate_aud: bool,
) -> Result<Value, JwtError>
    requires
        leeway <= MAX_LEEWAY_SECONDS,
{
    let mut validation = jsonwebtoken::Validation::new(alg);
    validation.leeway = leeway;
    validation.validate_exp = validate_exp;
    validation.validate_nbf = validate_nbf;
    validation.validate_aud = validate_aud;
    jsonwebtoken::decode::<Value>(token, key, &validation).map(|data| data.claims)
}

// ---------------------------------------------------------------------------
// Header gates.

pub open spec fn header_error_prefix() -> Seq<char> {
    "failed to decode header: "@
}

/// Reads the header of a compact token; a malformed token is an `InvalidJwt` error
/// whose message starts with `failed to decode header: `.
pub fn decode_token_header(token: &str) -> (r: Result<TokenHeader, Error>)
    ensures
        match (r, token_header_of(token@)) {
            (Ok(h), Some((a, k))) => h.alg == a && opt_view(h.kid) == k,
            (Err(e), None) => e is InvalidJwt && has_prefix(e->InvalidJwt_0@, header_error_prefix()),
            _ => false,
        },
{
    match decode_header_fields(token) {
        Ok((alg, kid, typ)) => Ok(TokenHeader { alg, kid, typ }),
        Err(e) => {
            let msg = String::from_str("failed to decode header: ").concat(jwt_error_text(&e).as_str());
            proof {
                reveal_strlit("failed to decode header: ");
                assert(msg@.subrange(0, header_error_prefix().len() as int) == header_error_prefix());
            }
            Err(Error::InvalidJwt(msg))
        },
    }
}

/// A key id that is absent or empty.
pub open spec fn kid_absent(kid: Option<Seq<char>>) -> bool {
    kid is None || kid->0.len() == 0
}

pub open spec fn kid_missing(kid: Option<String>) -> bool {
    kid_absent(opt_view(kid))
}

pub fn alg_allowed(allowed: &Vec<Algorithm>, alg: Algorithm) -> (r: bool)
    ensures
        r == allowed@.contains(alg),
{
    let mut i: usize = 0;
    while i < allowed.len()
        invariant
            i <= allowed@.len(),
            forall|k: int| 0 <= k < i ==> allowed@[k] != alg,
        decreases allowed@.len() - i,
    {
        if allowed[i] == alg {
            assert(allowed@[i as int] == alg);
            return true;
        }
        i = i + 1;
    }
    false
}

/// Applies the algorithm allow-list and the key-id requirement to a decoded header.
pub fn check_header(header: &TokenHeader, opts: &VerifyOptions) -> (r: Result<(), Error>)
    ensures
        !opts.allowed_algs@.contains(header.alg) ==> r == Err::<(), Error>(
            Error::UnsupportedAlg(header.alg),
        ),
        opts.allowed_algs@.contains(header.alg) ==> (r is Ok <==> !(opts.require_kid && kid_missing(
            header.kid,
        ))),
        opts.allowed_algs@.contains(header.alg) && r is Err ==> r->Err_0 is InvalidJwt
            && r->Err_0->InvalidJwt_0@ == "missing kid"@,
{
    if !alg_allowed(&opts.allowed_algs, header.alg) {
        return Err(Error::UnsupportedAlg(header.alg));
    }
    if opts.require_kid {
        let missing = match &header.kid {
            Some(k) => k.unicode_len() == 0,
            None => true,
        };
        if missing {
            proof {
                reveal_strlit("missing kid");
            }
            return Err(Error::InvalidJwt(String::from_str("missing kid")));
        }
    }
    Ok(())
}

// ---------------------------------------------------------------------------
// Candidate selection.

/// Does the key carry exactly the key id `kid`?
pub open spec fn kid_matches(kid: Seq<char>) -> spec_fn(Jwk) -> bool {
    |j: Jwk| j.kid is Some && j.kid->0@ == kid
}

/// The keys to try, in key-set order: those whose id equals the header's key id;
/// every key when the header has no key id or no key carries it.
pub open spec fn candidate_keys(kid: Option<String>, keys: Seq<Jwk>) -> Seq<Jwk> {
    match kid {
        Some(k) => {
            let matching = keys.filter(kid_matches(k@));
            if matching.len() > 0 {
                matching
            } else {
                keys
            }
        },
        None => keys,
    }
}

pub fn select_candidates(kid: &Option<String>, jwks: &JwksSet) -> (r: Vec<Jwk>)
    ensures
        r@ == candidate_keys(*kid, jwks.keys@),
{
    let mut out: Vec<Jwk> = Vec::new();
    if let Some(k) = kid {
        let mut i: usize = 0;
        while i < jwks.keys.len()
            invariant
                i <= jwks.keys@.len(),
                out@ == jwks.keys@.subrange(0, i as int).filter(kid_matches(k@)),
            decreases jwks.keys@.len() - i,
        {
            let key = &jwks.keys[i];
            let hit = match &key.kid {
                Some(id) => crate::text::str_eq(id.as_str(), k.as_str()),
                None => false,
            };
            proof {
                reveal(Seq::filter);
                assert(jwks.keys@.subrange(0, i + 1).drop_last() == jwks.keys@.subrange(0, i as int));
                assert(jwks.keys@.subrange(0, i + 1).last() == *key);
            }
            if hit {
                out.push(key.duplicate());
            }
            i = i + 1;
        }
        assert(jwks.keys@.subrange(0, jwks.keys@.len() as int) == jwks.keys@);
        if out.len() > 0 {
            return out;
        }
    }
    let mut all: Vec<Jwk> = Vec::new();
    let mut j: usize = 0;
    while j < jwks.keys.len()
        invariant
            j <= jwks.keys@.len(),
            all@ == jwks.keys@.subrange(0, j as int),
        decreases jwks.keys@.len() - j,
    {
        all.push(jwks.keys[j].duplicate());
        j = j + 1;
        assert(all@ == jwks.keys@.subrange(0, j as int));
    }
    assert(all@ == jwks.keys@);
    all
}

/// When no key carries the header's key id, every key of the set is a candidate.
pub proof fn lemma_unmatched_kid_tries_all(kid: String, keys: Seq<Jwk>)
    requires
        forall|i: int| 0 <= i < keys.len() ==> !(#[trigger] keys[i].kid is Some && keys[i].kid->0@
            == kid@),
    ensures
        candidate_keys(Some(kid), keys) == keys,
{
    let pred = kid_matches(kid@);
    assert(keys.all(|x: Jwk| !pred(x))) by {
        assert forall|i: int| 0 <= i < keys.len() implies (|x: Jwk| !pred(x))(#[trigger] keys[i]) by {}
    }
    keys.lemma_all_neg_filter_empty(pred);
}

// ---------------------------------------------------------------------------
// Trial verification.

/// What trying one candidate key gave.
#[derive(Debug)]
pub enum KeyOutcome {
    /// The key material could not be decoded: a non-match.
    Undecodable,
    /// The signature or time checks failed, with the token library's message.
    Rejected(String),
    /// The token verified under this key.
    Accepted(VerifiedJwt),
}

/// How a sequence of key trials ends.
pub enum Settlement {
    /// The first accepted token, whose issuer and audience meet the options.
    Verified(VerifiedJwt),
    /// The first accepted token fails the issuer or audience check.
    ClaimsRefused,
    /// No key accepted the token; the last rejection's message.
    LastRejection(Seq<char>),
    /// No key could be decoded at all.
    NoneUsable,
}

/// Trials in order: undecodable keys are skipped, the first acceptance decides,
/// and otherwise the last rejection (after `last`) is reported.
pub open spec fn settle(
    o: Seq<KeyOutcome>,
    last: Option<Seq<char>>,
    iss: Option<String>,
    aud: Option<String>,
) -> Settlement
    decreases o.len(),
{
    if o.len() == 0 {
        match last {
            Some(m) => Settlement::LastRejection(m),
            None => Settlement::NoneUsable,
        }
    } else {
        match o[0] {
            KeyOutcome::Undecodable => settle(o.drop_first(), last, iss, aud),
            KeyOutcome::Rejected(m) => settle(o.drop_first(), Some(m@), iss, aud),
            KeyOutcome::Accepted(v) => if issuer_accepted(iss, v.issuer) && audience_accepted(
                aud,
                v.audience,
            ) {
                Settlement::Verified(v)
            } else {
                Settlement::ClaimsRefused
            },
        }
    }
}

pub proof fn lemma_settle_none_usable(
    o: Seq<KeyOutcome>,
    last: Option<Seq<char>>,
    iss: Option<String>,
    aud: Option<String>,
)
    ensures
        (settle(o, last, iss, aud) is NoneUsable) <==> (last is None && forall|k: int|
            0 <= k < o.len() ==> #[trigger] o[k] is Undecodable),
    decreases o.len(),
{
    if o.len() > 0 {
        let next = match o[0] {
            KeyOutcome::Rejected(m) => Some(m@),
            _ => last,
        };
        lemma_settle_none_usable(o.drop_first(), next, iss, aud);
        if !(o[0] is Accepted) {
            assert forall|k: int| 0 <= k < o.len() && k > 0 implies #[trigger] o[k] == o.drop_first()[k - 1] by {}
        }
    }
}

pub proof fn lemma_settle_verified(
    o: Seq<KeyOutcome>,
    last: Option<Seq<char>>,
    iss: Option<String>,
    aud: Option<String>,
)
    requires
        settle(o, last, iss, aud) is Verified,
    ensures
        ({
            let v = settle(o, last, iss, aud)->Verified_0;
            &&& issuer_accepted(iss, v.issuer)
            &&& audience_accepted(aud, v.audience)
            &&& exists|k: int| 0 <= k < o.len() && #[trigger] o[k] == KeyOutcome::Accepted(v)
        }),
    decreases o.len(),
{
    if !(o[0] is Accepted) {
        let next = match o[0] {
            KeyOutcome::Rejected(m) => Some(m@),
            _ => last,
        };
        lemma_settle_verified(o.drop_first(), next, iss, aud);
        let v = settle(o, last, iss, aud)->Verified_0;
        let k = choose|k: int| 0 <= k < o.drop_first().len() && #[trigger] o.drop_first()[k] == KeyOutcome::Accepted(v);
        assert(o[k + 1] == KeyOutcome::Accepted(v));
    } else {
        assert(o[0] == KeyOutcome::Accepted(settle(o, last, iss, aud)->Verified_0));
    }
}

/// Settles a sequence of key trials: the first accepted token wins if its issuer
/// and audience meet the options; else the last rejection is a `Validation` error;
/// else (every key undecodable, or none at all) `NoMatchingKey`.
pub fn settle_outcomes(
    outcomes: Vec<KeyOutcome>,
    expected_issuer: &Option<String>,
    expected_audience: &Option<String>,
) -> (r: Result<VerifiedJwt, Error>)
    ensures
        match settle(outcomes@, None, *expected_issuer, *expected_audience) {
            Settlement::Verified(v) => r == Ok::<VerifiedJwt, Error>(v),
            Settlement::ClaimsRefused => r is Err && r->Err_0 is Validation,
            Settlement::LastRejection(m) => r is Err && r->Err_0 is Validation
                && r->Err_0->Validation_0@ == m,
            Settlement::NoneUsable => r == Err::<VerifiedJwt, Error>(Error::NoMatchingKey),
        },
{
    let ghost whole = outcomes@;
    let mut rest = outcomes;
    let mut last: Option<String> = None;
    while rest.len() > 0
        invariant
            whole == outcomes@,
            settle(whole, None, *expected_issuer, *expected_audience) == settle(
                rest@,
                opt_view(last),
                *expected_issuer,
                *expected_audience,
            ),
        decreases rest@.len(),
    {
        let ghost before = rest@;
        let o = rest.remove(0);
        assert(rest@ == before.drop_first());
        match o {
            KeyOutcome::Undecodable => {},
            KeyOutcome::Rejected(m) => {
                last = Some(m);
            },
            KeyOutcome::Accepted(v) => {
                assert(before[0] == KeyOutcome::Accepted(v));
                assert(settle(before, opt_view(last), *expected_issuer, *expected_audience) == (
                if issuer_accepted(*expected_issuer, v.issuer) && audience_accepted(
                    *expected_audience,
                    v.audience,
                ) {
                    Settlement::Verified(v)
                } else {
                    Settlement::ClaimsRefused
                }));
                let checked = check_issuer_audience(
                    &v.issuer,
                    &v.audience,
                    expected_issuer,
                    expected_audience,
                );
                match checked {
                    Ok(()) => {
                        return Ok(v);
                    },
                    Err(e) => {
                        return Err(e);
                    },
                }
            },
        }
    }
    match last {
        Some(m) => Err(Error::Validation(m)),
        None => Err(Error::NoMatchingKey),
    }
}

fn leeway_refusal() -> (r: String) {
    String::from_str("leeway_seconds exceeds the supported maximum")
}

/// Tries the candidate keys in order: a key whose material cannot be decoded is a
/// non-match; under the others the token's signature is checked with `exp` and
/// `nbf` validation and the configured leeway, and the first success is settled by
/// `settle_outcomes`. A leeway above `MAX_LEEWAY_SECONDS` rejects every decodable key.
pub fn verify_against_jwks(
    token: &str,
    header: &TokenHeader,
    jwks: &JwksSet,
    opts: &VerifyOptions,
) -> (r: Result<VerifiedJwt, Error>)
    ensures
        (r is Err && r->Err_0 is NoMatchingKey) <==> (forall|i: int|
            0 <= i < candidate_keys(header.kid, jwks.keys@).len() ==> !jwk_decodes(
                #[trigger] candidate_keys(header.kid, jwks.keys@)[i],
            )),
        r is Ok ==> r->Ok_0.header == *header && issuer_accepted(opts.issuer, r->Ok_0.issuer)
            && audience_accepted(opts.audience, r->Ok_0.audience),
        r is Err ==> (r->Err_0 is NoMatchingKey || r->Err_0 is Validation),
{
    let candidates = select_candidates(&header.kid, jwks);
    let alg = outside_alg(header.alg);
    let mut outcomes: Vec<KeyOutcome> = Vec::new();
    let mut accepted = false;
    let mut i: usize = 0;
    while i < candidates.len() && !accepted
        invariant
            i <= candidates@.len(),
            candidates@ == candidate_keys(header.kid, jwks.keys@),
            outcomes@.len() == i,
            forall|k: int|
                0 <= k < i ==> (#[trigger] outcomes@[k] is Undecodable <==> !jwk_decodes(
                    candidates@[k],
                )),
            forall|k: int|
                0 <= k < i ==> (#[trigger] outcomes@[k] is Accepted ==> outcomes@[k]->Accepted_0.header
                    == *header),
            accepted ==> i > 0 && outcomes@[i - 1] is Accepted,
        decreases candidates@.len() - i,
    {
        let outcome = match decoding_key_from_jwk(&candidates[i]) {
            Err(_) => KeyOutcome::Undecodable,
            Ok(key) => {
                if opts.leeway_seconds > MAX_LEEWAY_SECONDS {
                    KeyOutcome::Rejected(leeway_refusal())
                } else {
                    match decode_claims(token, &key, alg, opts.leeway_seconds, true, true, false) {
                        Ok(claims) => {
                            accepted = true;
                            KeyOutcome::Accepted(VerifiedJwt::from_parts(header.duplicate(), claims))
                        },
                        Err(e) => KeyOutcome::Rejected(jwt_error_text(&e)),
                    }
                }
            },
        };
        outcomes.push(outcome);
        i = i + 1;
    }
    proof {
        lemma_settle_none_usable(outcomes@, None, opts.issuer, opts.audience);
        if accepted {
            assert(!(outcomes@[i - 1] is Undecodable));
        }
    }
    let ghost o = outcomes@;
    let r = settle_outcomes(outcomes, &opts.issuer, &opts.audience);
    proof {
        let cands = candidate_keys(header.kid, jwks.keys@);
        if r is Ok {
            lemma_settle_verified(o, None, opts.issuer, opts.audience);
        }
        if forall|j: int| 0 <= j < cands.len() ==> !jwk_decodes(#[trigger] cands[j]) {
            if accepted {
                assert(!jwk_decodes(cands[i - 1]));
                assert(false);
            }
            assert(forall|k: int| 0 <= k < o.len() ==> #[trigger] o[k] is Undecodable) by {
                assert forall|k: int| 0 <= k < o.len() implies #[trigger] o[k] is Undecodable by {
                    assert(!jwk_decodes(cands[k]));
                }
            }
        }
        if r is Err && r->Err_0 is NoMatchingKey {
            assert(settle(o, None, opts.issuer, opts.audience) is NoneUsable);
            if accepted {
                assert(o[i - 1] is Undecodable);
                assert(false);
            }
            assert forall|j: int| 0 <= j < cands.len() implies !jwk_decodes(#[trigger] cands[j]) by {
                assert(o[j] is Undecodable);
            }
        }
    }
    r
}

} // verus!
