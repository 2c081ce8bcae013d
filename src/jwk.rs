//! JSON Web Keys and the decoder that turns one into a verification key.

use vstd::prelude::*;
use crate::der::{ed25519_spki_der, spki_of};
use crate::error::Error;
use crate::text::str_eq;
use base64::Engine;
use jsonwebtoken::errors::Error as JwtError;

verus! {

/// Signature algorithms a token header may name.
#[derive(Debug, Clone, Copy, PartialEq, Eq, Structural, Hash)]
pub enum Algorithm {
    HS256,
    HS384,
    HS512,
    ES256,
    ES384,
    RS256,
    RS384,
    RS512,
    PS256,
    PS384,
    PS512,
    EdDSA,
}

/// One JSON Web Key, with the fields of the RSA, EC and OKP key types.
#[derive(Debug, Clone)]
pub struct Jwk {
    /// Key type ("RSA", "EC", "OKP").
    pub kty: String,
    /// Key id.
    pub kid: Option<String>,
    /// Public key use.
    pub use_: Option<String>,
    /// Declared algorithm.
    pub alg: Option<String>,
    /// RSA modulus.
    pub n: Option<String>,
    /// RSA exponent.
    pub e: Option<String>,
    /// Curve name.
    pub crv: Option<String>,
    /// EC or OKP x coordinate.
    pub x: Option<String>,
    /// EC y coordinate.
    pub y: Option<String>,
    /// Symmetric key (never used for verification).
    pub k: Option<String>,
}

/// A key set: keys in document order, not necessarily unique by id.
#[derive(Debug, Clone)]
pub struct JwksSet {
    pub keys: Vec<Jwk>,
}

/// Where a key set comes from.
#[derive(Debug, Clone)]
pub enum JwksSource {
    /// Fetch from this URL.
    Url(String),
    /// Parse this JSON document.
    Json(String),
    /// Use this key set as it is.
    Keys(JwksSet),
}

pub fn copy_opt_string(o: &Option<String>) -> (r: Option<String>)
    ensures
        r == *o,
{
    match o {
        Some(s) => Some(s.clone()),
        None => None,
    }
}

impl Jwk {
    /// A field-by-field copy.
    pub fn duplicate(&self) -> (r: Jwk)
        ensures
            r == *self,
    {
        Jwk {
            kty: self.kty.clone(),
            kid: copy_opt_string(&self.kid),
            use_: copy_opt_string(&self.use_),
            alg: copy_opt_string(&self.alg),
            n: copy_opt_string(&self.n),
            e: copy_opt_string(&self.e),
            crv: copy_opt_string(&self.crv),
            x: copy_opt_string(&self.x),
            y: copy_opt_string(&self.y),
            k: copy_opt_string(&self.k),
        }
    }
}

impl View for JwksSet {
    type V = Seq<Jwk>;

    open spec fn view(&self) -> Seq<Jwk> {
        self.keys@
    }
}

impl JwksSet {
    /// A key-by-key copy, equal to the original.
    pub fn duplicate(&self) -> (r: JwksSet)
        ensures
            r@ == self@,
    {
        let mut keys: Vec<Jwk> = Vec::new();
        let mut i: usize = 0;
        while i < self.keys.len()
            invariant
                i <= self.keys@.len(),
                keys@ == self.keys@.subrange(0, i as int),
            decreases self.keys@.len() - i,
        {
            keys.push(self.keys[i].duplicate());
            i = i + 1;
            assert(keys@ == self.keys@.subrange(0, i as int));
        }
        assert(keys@ == self.keys@);
        JwksSet { keys }
    }
}

// ---------------------------------------------------------------------------
// Outside items: base64 decoding and jsonwebtoken's key constructors.

#[verifier::external_type_specification]
#[verifier::external_body]
pub struct ExDecodingKey(jsonwebtoken::DecodingKey);

#[verifier::external_type_specification]
#[verifier::external_body]
pub struct ExJwtError(JwtError);

#[verifier::external_type_specification]
#[verifier::external_body]
pub struct ExDecodeError(base64::DecodeError);

/// The bytes that unpadded URL-safe base64 text stands for, if it is well formed.
pub uninterp spec fn base64url_bytes_of(s: Seq<char>) -> Option<Seq<u8>>;

/// Relies on base64's `URL_SAFE_NO_PAD` engine: decoding depends on the text alone.
#[verifier::external_body]
fn base64url_decode(s: &str) -> (r: Result<Vec<u8>, base64::DecodeError>)
    ensures
        r is Ok <==> base64url_bytes_of(s@) is Some,
        r is Ok ==> r->Ok_0@ == base64url_bytes_of(s@)->0,
{
    base64::engine::general_purpose::URL_SAFE_NO_PAD.decode(s)
}

/// Relies on the `Display` impl of `base64::DecodeError`.
#[verifier::external_body]
fn base64_error_text(e: &base64::DecodeError) -> String {
    e.to_string()
}

/// Relies on the `Display` impl of `jsonwebtoken::errors::Error`.
#[verifier::external_body]
pub fn jwt_error_text(e: &JwtError) -> String {
    e.to_string()
}

/// Relies on `DecodingKey::from_rsa_components`: it decodes modulus and exponent with
/// base64's `URL_SAFE_NO_PAD` engine and fails only when one of them does not decode.
#[verifier::external_body]
fn rsa_key(n: &str, e: &str) -> (r: Result<jsonwebtoken::DecodingKey, JwtError>)
    ensures
        r is Ok <==> (base64url_bytes_of(n@) is Some && base64url_bytes_of(e@) is Some),
{
    jsonwebtoken::DecodingKey::from_rsa_components(n, e)
}

/// Relies on `DecodingKey::from_ec_components`: it decodes both coordinates with
/// base64's `URL_SAFE_NO_PAD` engine and fails only when one of them does not decode.
#[verifier::external_body]
fn ec_key(x: &str, y: &str) -> (r: Result<jsonwebtoken::DecodingKey, JwtError>)
    ensures
        r is Ok <==> (base64url_bytes_of(x@) is Some && base64url_bytes_of(y@) is Some),
{
    jsonwebtoken::DecodingKey::from_ec_components(x, y)
}

/// Relies on `DecodingKey::from_ed_der`, which takes a DER `SubjectPublicKeyInfo`.
#[verifier::external_body]
fn ed_key(der: &Vec<u8>) -> jsonwebtoken::DecodingKey {
    jsonwebtoken::DecodingKey::from_ed_der(der)
}

// ---------------------------------------------------------------------------
// The key material decoder.

/// The curve name as the error message shows it.
pub open spec fn curve_text(jwk: Jwk) -> Seq<char> {
    match jwk.crv {
        Some(c) => c@,
        None => Seq::empty(),
    }
}

/// The error message for a key that lacks what its key type requires, or whose
/// type or curve is unsupported; `None` when its shape is right.
pub open spec fn shape_error(jwk: Jwk) -> Option<Seq<char>> {
    if jwk.kty@ == "RSA"@ {
        if jwk.n is None {
            Some("RSA JWK missing n"@)
        } else if jwk.e is None {
            Some("RSA JWK missing e"@)
        } else {
            None
        }
    } else if jwk.kty@ == "EC"@ {
        if jwk.x is None {
            Some("EC JWK missing x"@)
        } else if jwk.y is None {
            Some("EC JWK missing y"@)
        } else {
            None
        }
    } else if jwk.kty@ == "OKP"@ {
        if !(jwk.crv is Some && jwk.crv->0@ == "Ed25519"@) {
            Some("unsupported OKP curve: "@ + curve_text(jwk))
        } else if jwk.x is None {
            Some("OKP JWK missing x"@)
        } else {
            None
        }
    } else {
        Some("unsupported kty: "@ + jwk.kty@)
    }
}

/// Does the key decode into a verification key: right shape, and its material
/// well-formed base64url (for Ed25519, exactly 32 bytes)?
pub open spec fn jwk_decodes(jwk: Jwk) -> bool {
    &&& shape_error(jwk) is None
    &&& jwk.kty@ == "RSA"@ ==> (base64url_bytes_of(jwk.n->0@) is Some && base64url_bytes_of(
        jwk.e->0@,
    ) is Some)
    &&& jwk.kty@ == "EC"@ ==> (base64url_bytes_of(jwk.x->0@) is Some && base64url_bytes_of(
        jwk.y->0@,
    ) is Some)
    &&& jwk.kty@ == "OKP"@ ==> (base64url_bytes_of(jwk.x->0@) is Some && base64url_bytes_of(
        jwk.x->0@,
    )->0.len() == 32)
}

fn jwks_error(what: &str) -> (r: Error)
    ensures
        r is Jwks && r->Jwks_0@ == what@,
{
    Error::Jwks(String::from_str(what))
}

/// Turns one JWK into a key that can check signatures. An Ed25519 key's `x` must
/// decode to exactly 32 bytes, which are wrapped in a DER `SubjectPublicKeyInfo`.
pub fn decoding_key_from_jwk(jwk: &Jwk) -> (r: Result<jsonwebtoken::DecodingKey, Error>)
    ensures
        r is Ok <==> jwk_decodes(*jwk),
        shape_error(*jwk) is Some ==> r is Err && r->Err_0 is Jwks && r->Err_0->Jwks_0@
            == shape_error(*jwk)->0,
        r is Err ==> (r->Err_0 is Jwks || r->Err_0 is Jwt),
{
    proof {
        reveal_strlit("RSA");
        reveal_strlit("EC");
        reveal_strlit("OKP");
        reveal_strlit("Ed25519");
        assert("RSA"@[0] != "OKP"@[0]);
        assert("RSA"@[0] != "EC"@[0]);
        assert("EC"@.len() != "OKP"@.len());
    }
    if str_eq(jwk.kty.as_str(), "RSA") {
        let n = match &jwk.n {
            Some(n) => n,
            None => return Err(jwks_error("RSA JWK missing n")),
        };
        let e = match &jwk.e {
            Some(e) => e,
            None => return Err(jwks_error("RSA JWK missing e")),
        };
        match rsa_key(n.as_str(), e.as_str()) {
            Ok(k) => Ok(k),
            Err(err) => Err(Error::Jwt(jwt_error_text(&err))),
        }
    } else if str_eq(jwk.kty.as_str(), "EC") {
        let x = match &jwk.x {
            Some(x) => x,
            None => return Err(jwks_error("EC JWK missing x")),
        };
        let y = match &jwk.y {
            Some(y) => y,
            None => return Err(jwks_error("EC JWK missing y")),
        };
        match ec_key(x.as_str(), y.as_str()) {
            Ok(k) => Ok(k),
            Err(err) => Err(Error::Jwt(jwt_error_text(&err))),
        }
    } else if str_eq(jwk.kty.as_str(), "OKP") {
        let crv_ok = match &jwk.crv {
            Some(c) => str_eq(c.as_str(), "Ed25519"),
            None => false,
        };
        if !crv_ok {
            let crv = match &jwk.crv {
                Some(c) => c.clone(),
                None => String::new(),
            };
            return Err(Error::Jwks(String::from_str("unsupported OKP curve: ").concat(crv.as_str())));
        }
        let x = match &jwk.x {
            Some(x) => x,
            None => return Err(jwks_error("OKP JWK missing x")),
        };
        let pubkey = match base64url_decode(x.as_str()) {
            Ok(b) => b,
            Err(err) => {
                return Err(
                    Error::Jwks(String::from_str("invalid okp x: ").concat(base64_error_text(&err).as_str())),
                );
            },
        };
        if pubkey.len() != 32 {
            return Err(jwks_error("invalid okp x: an Ed25519 key has 32 bytes"));
        }
        let der = ed25519_spki_der(pubkey.as_slice());
        assert(der@ == spki_of(base64url_bytes_of(x@)->0));
        Ok(ed_key(&der))
    } else {
        Err(Error::Jwks(String::from_str("unsupported kty: ").concat(jwk.kty.as_str())))
    }
}

} // verus!
