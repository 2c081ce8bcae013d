//! Bearer-token (JWT) verification against a provider's published key set,
//! together with the small pieces of policy that surround it: tenant
//! derivation, session cookies, connection catalogs and command-line access checks.

pub mod der;
pub mod text;
pub mod number;
pub mod cache_control;
pub mod error;
pub mod jwk;
pub mod claims;
pub mod cache;
pub mod verify;
pub mod facade;
pub mod tenant;
pub mod cookie;
pub mod api;
pub mod connectors;
pub mod named;
pub mod catalog;
pub mod runtime;
pub mod calendar;
pub mod session;
pub mod identity;
pub mod credentials;
pub mod migrations;
pub mod git_remote;

pub use claims::VerifiedJwt;
pub use cookie::{build_clear_cookie, build_set_cookie, CookieOptions, SameSite};
pub use error::Error;
pub use facade::JwtVerifier;
pub use jwk::{Algorithm, Jwk, JwksSet, JwksSource};
pub use tenant::{derive_tenant, TenantConfig, TenantDecision, TenantSource};
pub use verify::VerifyOptions;
