//! Errors of token verification.

use vstd::prelude::*;
use crate::jwk::Algorithm;

verus! {

/// Why a token was not accepted, or why its key set could not be used.
#[derive(Debug, Clone)]
pub enum Error {
    /// The token is malformed or lacks a required header field.
    InvalidJwt(String),
    /// The header's algorithm is not in the allow-list.
    UnsupportedAlg(Algorithm),
    /// The key set could not be fetched, parsed or used.
    Jwks(String),
    /// The key set holds no usable key for the token.
    NoMatchingKey,
    /// Signature or claim validation failed.
    Validation(String),
    /// An HTTP request failed before a response arrived.
    Http(String),
    /// A JSON document could not be parsed.
    Json(String),
    /// The token library rejected its input.
    Jwt(String),
}

} // verus!
