//! Decoded token headers and claims, and the issuer / audience checks on them.

use vstd::prelude::*;
use crate::error::Error;
use crate::jwk::{copy_opt_string, Algorithm};
use crate::text::str_eq;
use serde_json::Value;

verus! {

#[verifier::external_type_specification]
#[verifier::external_body]
pub struct ExValue(serde_json::Value);

/// Relies on `Clone` of `serde_json::Value`, which copies the document.
pub assume_specification[ <serde_json::Value as std::clone::Clone>::clone ](v: &serde_json::Value) -> serde_json::Value;

/// Relies on `Value::get`: the member of an object under `key`.
#[verifier::external_body]
pub fn json_field<'a>(v: &'a Value, key: &str) -> Option<&'a Value> {
    v.get(key)
}

/// Relies on `Value::as_str`: the text of a JSON string.
#[verifier::external_body]
pub fn json_str<'a>(v: &'a Value) -> Option<&'a str> {
    v.as_str()
}

/// Relies on `Value::as_array`: the items of a JSON array.
#[verifier::external_body]
pub fn json_items<'a>(v: &'a Value) -> Option<&'a Vec<Value>> {
    v.as_array()
}

/// Relies on `Value::as_i64`: a JSON number that is an `i64`.
#[verifier::external_body]
pub fn json_i64(v: &Value) -> Option<i64> {
    v.as_i64()
}

/// The text of the string member `key` of `v`, if there is one.
pub fn json_field_str(v: &Value, key: &str) -> Option<String> {
    match json_field(v, key) {
        Some(f) => match json_str(f) {
            Some(s) => Some(String::from_str(s)),
            None => None,
        },
        None => None,
    }
}

/// The header fields of a token that this library reads.
#[derive(Debug, Clone)]
pub struct TokenHeader {
    pub alg: Algorithm,
    pub kid: Option<String>,
    pub typ: Option<String>,
}

impl TokenHeader {
    pub fn duplicate(&self) -> (r: TokenHeader)
        ensures
            r == *self,
    {
        TokenHeader { alg: self.alg, kid: copy_opt_string(&self.kid), typ: copy_opt_string(&self.typ) }
    }
}

/// The `aud` claim, in the shapes providers use.
#[derive(Debug, Clone)]
pub enum Audience {
    /// No `aud` claim.
    Missing,
    /// A single string.
    Single(String),
    /// An array; each item's text if it is a string.
    List(Vec<Option<String>>),
    /// Any other JSON value.
    Other,
}

/// The `aud` claim of a claims object.
pub fn audience_of(claims: &Value) -> Audience {
    match json_field(claims, "aud") {
        None => Audience::Missing,
        Some(a) => match json_str(a) {
            Some(s) => Audience::Single(String::from_str(s)),
            None => match json_items(a) {
                Some(items) => {
                    let mut out: Vec<Option<String>> = Vec::new();
                    let mut i: usize = 0;
                    while i < items.len()
                        invariant
                            i <= items@.len(),
                        decreases items@.len() - i,
                    {
                        let t = match json_str(&items[i]) {
                            Some(s) => Some(String::from_str(s)),
                            None => None,
                        };
                        out.push(t);
                        i = i + 1;
                    }
                    Audience::List(out)
                },
                None => Audience::Other,
            },
        },
    }
}

/// A token whose signature verified and whose claims passed validation.
#[derive(Debug, Clone)]
pub struct VerifiedJwt {
    /// The token header.
    pub header: TokenHeader,
    /// All claims, as a generic JSON value.
    pub claims: Value,
    /// The `iss` claim, if it is a string.
    pub issuer: Option<String>,
    /// The `aud` claim.
    pub audience: Audience,
    /// The `sub` claim, if it is a string.
    pub subject: Option<String>,
    /// The `exp` claim, if it is an integer.
    pub expires: Option<i64>,
}

impl VerifiedJwt {
    /// Pairs a header with the claims decoded under it, reading `iss` and `aud` once.
    pub fn from_parts(header: TokenHeader, claims: Value) -> (r: VerifiedJwt)
        ensures
            r.header == header,
    {
        let issuer = json_field_str(&claims, "iss");
        let audience = audience_of(&claims);
        let subject = json_field_str(&claims, "sub");
        let expires = match json_field(&claims, "exp") {
            Some(v) => json_i64(v),
            None => None,
        };
        VerifiedJwt { header, claims, issuer, audience, subject, expires }
    }

    /// A claim by key.
    pub fn claim(&self, key: &str) -> Option<&Value> {
        json_field(&self.claims, key)
    }

    /// The `sub` claim, if it is a string.
    pub fn sub(&self) -> (r: Option<&str>)
        ensures
            r is Some <==> self.subject is Some,
            r is Some ==> r->0@ == self.subject->0@,
    {
        match &self.subject {
            Some(s) => Some(s.as_str()),
            None => None,
        }
    }

    /// The `iss` claim, if it is a string.
    pub fn iss(&self) -> (r: Option<&str>)
        ensures
            r is Some <==> self.issuer is Some,
            r is Some ==> r->0@ == self.issuer->0@,
    {
        match &self.issuer {
            Some(s) => Some(s.as_str()),
            None => None,
        }
    }

    /// The `aud` claim, as it stands.
    pub fn aud(&self) -> Option<&Value> {
        json_field(&self.claims, "aud")
    }

    /// The `exp` claim, if it is an integer.
    pub fn exp(&self) -> (r: Option<i64>)
        ensures
            r == self.expires,
    {
        self.expires
    }
}

/// Does the audience claim name `expected`, either as its one string or as one item of its array?
pub open spec fn audience_names(aud: Audience, expected: Seq<char>) -> bool {
    match aud {
        Audience::Single(s) => s@ == expected,
        Audience::List(items) => exists|k: int|
            0 <= k < items@.len() && #[trigger] items@[k] is Some && items@[k]->0@ == expected,
        _ => false,
    }
}

/// An issuer requirement is met by an `iss` claim equal to it, character for character.
pub open spec fn issuer_accepted(expected: Option<String>, iss: Option<String>) -> bool {
    expected is Some ==> (iss is Some && iss->0@ == expected->0@)
}

/// An audience requirement is met by an `aud` claim that names it.
pub open spec fn audience_accepted(expected: Option<String>, aud: Audience) -> bool {
    expected is Some ==> audience_names(aud, expected->0@)
}

fn list_names(items: &Vec<Option<String>>, expected: &str) -> (r: bool)
    ensures
        r == audience_names(Audience::List(*items), expected@),
{
    let mut i: usize = 0;
    while i < items.len()
        invariant
            i <= items@.len(),
            forall|k: int|
                0 <= k < i ==> !(#[trigger] items@[k] is Some && items@[k]->0@ == expected@),
        decreases items@.len() - i,
    {
        match &items[i] {
            Some(s) => {
                if str_eq(s.as_str(), expected) {
                    assert(items@[i as int] is Some && items@[i as int]->0@ == expected@);
                    return true;
                }
            },
            None => {},
        }
        i = i + 1;
    }
    false
}

pub fn audience_names_exec(aud: &Audience, expected: &str) -> (r: bool)
    ensures
        r == audience_names(*aud, expected@),
{
    match aud {
        Audience::Single(s) => str_eq(s.as_str(), expected),
        Audience::List(items) => list_names(items, expected),
        _ => false,
    }
}

/// Checks a token's `iss` and `aud` claims against what the caller expects.
/// The issuer is compared first; a failure is a `Validation` error.
pub fn check_issuer_audience(
    iss: &Option<String>,
    aud: &Audience,
    expected_issuer: &Option<String>,
    expected_audience: &Option<String>,
) -> (r: Result<(), Error>)
    ensures
        r is Ok <==> (issuer_accepted(*expected_issuer, *iss) && audience_accepted(
            *expected_audience,
            *aud,
        )),
        r is Err ==> r->Err_0 is Validation,
{
    if let Some(expected) = expected_issuer {
        match iss {
            None => {
                return Err(Error::Validation(String::from_str("missing iss")));
            },
            Some(got) => {
                if !str_eq(got.as_str(), expected.as_str()) {
                    let msg = String::from_str("issuer mismatch: expected ").concat(
                        expected.as_str(),
                    ).concat(", got ").concat(got.as_str());
                    return Err(Error::Validation(msg));
                }
            },
        }
    }
    if let Some(expected) = expected_audience {
        if let Audience::Missing = aud {
            return Err(Error::Validation(String::from_str("missing aud")));
        }
        if !audience_names_exec(aud, expected.as_str()) {
            let msg = String::from_str("audience mismatch: expected ").concat(expected.as_str());
            return Err(Error::Validation(msg));
        }
    }
    Ok(())
}

/// An audience requirement is met by a scalar `aud` equal to it and by an array
/// `aud` that holds it as one of its items, and by nothing else.
pub proof fn lemma_audience_scalar_or_array(aud: Audience, expected: String)
    ensures
        aud is Single ==> (audience_accepted(Some(expected), aud) <==> aud->Single_0@ == expected@),
        aud is List ==> (audience_accepted(Some(expected), aud) <==> exists|k: int|
            0 <= k < aud->List_0@.len() && #[trigger] aud->List_0@[k] is Some
                && aud->List_0@[k]->0@ == expected@),
        (aud is Missing || aud is Other) ==> !audience_accepted(Some(expected), aud),
{
}

/// The issuer check is exact string equality: no trailing-slash or case normalization.
pub proof fn lemma_issuer_exact(expected: String, iss: Option<String>)
    ensures
        issuer_accepted(Some(expected), iss) <==> (iss is Some && iss->0@ == expected@),
        iss is Some && iss->0@ != expected@ ==> !issuer_accepted(Some(expected), iss),
{
}

} // verus!
