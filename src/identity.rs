//! Who is logged in, how, and whether they may run infrastructure commands.

use vstd::prelude::*;
use crate::jwk::copy_opt_string;
use crate::session::{cli_error, require_unlocked, token_refusal, CliError, SessionToken};
use crate::text::str_eq;

verus! {

/// Tokens of a logged-in user, as stored in the keychain.
#[derive(Debug, Clone)]
pub struct StoredAuth {
    pub access_token: String,
    pub refresh_token: String,
    pub user_id: Option<String>,
    pub email: Option<String>,
    pub expires_at: Option<u64>,
    pub auth_method: Option<String>,
}

/// The logged-in identity and its capabilities.
#[derive(Debug, Clone)]
pub struct AuthIdentity {
    pub user_id: String,
    pub email: Option<String>,
    pub auth_method: String,
    pub is_founder: bool,
    pub profile: String,
}

/// A cached answer to "is this user the founder?".
#[derive(Debug, Clone)]
pub struct IdentityCache {
    pub user_id: String,
    pub is_founder: bool,
    pub cached_at: u64,
}

/// How long a cached founder answer is trusted, in seconds.
pub const IDENTITY_CACHE_TTL_SECS: u64 = 1800;

impl IdentityCache {
    /// Is the entry younger than the cache TTL at `now`?
    pub fn is_valid(&self, now: u64) -> (r: bool)
        ensures
            r == (now < self.cached_at || now - self.cached_at < IDENTITY_CACHE_TTL_SECS),
    {
        now.saturating_sub(self.cached_at) < IDENTITY_CACHE_TTL_SECS
    }
}

/// A founder answer that needs no remote check: a valid cache entry for this user.
pub fn cached_founder_status(cache: &Option<IdentityCache>, user_id: &str, now: u64) -> (r: Option<bool>)
    ensures
        r is Some <==> (cache is Some && cache->0.user_id@ == user_id@ && (now < cache->0.cached_at
            || now - cache->0.cached_at < IDENTITY_CACHE_TTL_SECS)),
        r is Some ==> r->0 == cache->0.is_founder,
{
    match cache {
        Some(c) => {
            if str_eq(c.user_id.as_str(), user_id) && c.is_valid(now) {
                Some(c.is_founder)
            } else {
                None
            }
        },
        None => None,
    }
}

/// The founder answer after a remote check: its result when it succeeded; when it
/// failed, any cache entry for this user, however old; otherwise founder, the
/// restrictive answer for infrastructure commands.
pub fn founder_status_after_check(
    remote: Option<bool>,
    cache: &Option<IdentityCache>,
    user_id: &str,
) -> (r: bool)
    ensures
        remote is Some ==> r == remote->0,
        remote is None && cache is Some && cache->0.user_id@ == user_id@ ==> r == cache->0.is_founder,
        remote is None && !(cache is Some && cache->0.user_id@ == user_id@) ==> r,
{
    match remote {
        Some(v) => v,
        None => match cache {
            Some(c) => {
                if str_eq(c.user_id.as_str(), user_id) {
                    c.is_founder
                } else {
                    true
                }
            },
            None => true,
        },
    }
}

/// The identity of stored tokens, given the user's founder status; `None` when
/// nobody is logged in or the tokens carry no user id.
pub fn load_identity(auth: Option<StoredAuth>, is_founder: bool) -> (r: Option<AuthIdentity>)
    ensures
        r is Some <==> (auth is Some && auth->0.user_id is Some),
        r is Some ==> ({
            let i = r->0;
            let a = auth->0;
            &&& i.user_id == a.user_id->0
            &&& i.email == a.email
            &&& (a.auth_method is Some ==> i.auth_method == a.auth_method->0)
            &&& (a.auth_method is None ==> i.auth_method@ == "unknown"@)
            &&& i.is_founder == is_founder
            &&& i.profile@ == (if is_founder { "founder"@ } else { "operator"@ })
        }),
{
    let auth = match auth {
        Some(a) => a,
        None => return None,
    };
    let user_id = match &auth.user_id {
        Some(u) => u.clone(),
        None => return None,
    };
    let method = match &auth.auth_method {
        Some(m) => m.clone(),
        None => String::from_str("unknown"),
    };
    let profile = if is_founder {
        String::from_str("founder")
    } else {
        String::from_str("operator")
    };
    Some(
        AuthIdentity {
            user_id,
            email: copy_opt_string(&auth.email),
            auth_method: method,
            is_founder,
            profile,
        },
    )
}

pub open spec fn not_logged_in_text() -> Seq<char> {
    "Not logged in.\nRun: logline auth login --passkey"@
}

/// Why an identity may not run infrastructure commands for want of a passkey login.
pub open spec fn passkey_refusal(identity: Option<AuthIdentity>) -> Option<Seq<char>> {
    match identity {
        None => Some(not_logged_in_text()),
        Some(i) => if i.auth_method@ == "passkey"@ {
            None
        } else {
            Some(
                "Infra commands require passkey authentication.\nCurrent method: "@ + i.auth_method@
                    + "\nFix: logline auth login --passkey"@,
            )
        },
    }
}

/// Why the founder may not run infrastructure commands.
pub open spec fn founder_refusal(i: AuthIdentity) -> Option<Seq<char>> {
    if i.is_founder {
        Some(
            "Infra commands cannot run as founder/god mode.\nCurrent identity: "@ + (match i.email {
                Some(e) => e@,
                None => "?"@,
            }) + " ("@ + i.user_id@
                + ")\nFounder mode is reserved for `logline founder bootstrap` only.\nFix: log in as your operator/service user, not the founder account."@,
        )
    } else {
        None
    }
}

pub fn require_logged_in(identity: Option<AuthIdentity>) -> (r: Result<AuthIdentity, CliError>)
    ensures
        r is Ok <==> identity is Some,
        r is Ok ==> r->Ok_0 == identity->0,
        r is Err ==> r->Err_0.message@ == not_logged_in_text(),
{
    proof {
        reveal_strlit("Not logged in.\nRun: logline auth login --passkey");
    }
    match identity {
        Some(i) => Ok(i),
        None => Err(cli_error("Not logged in.\nRun: logline auth login --passkey")),
    }
}

/// Infrastructure commands need a passkey login.
pub fn require_passkey_identity(identity: Option<AuthIdentity>) -> (r: Result<AuthIdentity, CliError>)
    ensures
        r is Ok <==> passkey_refusal(identity) is None,
        r is Ok ==> r->Ok_0 == identity->0,
        r is Err ==> r->Err_0.message@ == passkey_refusal(identity)->0,
{
    proof {
        reveal_strlit("passkey");
        reveal_strlit("Infra commands require passkey authentication.\nCurrent method: ");
        reveal_strlit("\nFix: logline auth login --passkey");
    }
    let identity = require_logged_in(identity)?;
    if !str_eq(identity.auth_method.as_str(), "passkey") {
        let msg = String::from_str(
            "Infra commands require passkey authentication.\nCurrent method: ",
        ).concat(identity.auth_method.as_str()).concat("\nFix: logline auth login --passkey");
        return Err(CliError { message: msg });
    }
    Ok(identity)
}

/// Infrastructure commands cannot run as the founder.
pub fn require_non_founder(identity: &AuthIdentity) -> (r: Result<(), CliError>)
    ensures
        r is Ok <==> founder_refusal(*identity) is None,
        r is Err ==> r->Err_0.message@ == founder_refusal(*identity)->0,
{
    proof {
        reveal_strlit("?");
        reveal_strlit(" (");
        reveal_strlit("Infra commands cannot run as founder/god mode.\nCurrent identity: ");
        reveal_strlit(
            ")\nFounder mode is reserved for `logline founder bootstrap` only.\nFix: log in as your operator/service user, not the founder account.",
        );
    }
    if identity.is_founder {
        let email = match &identity.email {
            Some(e) => e.as_str(),
            None => "?",
        };
        let msg = String::from_str(
            "Infra commands cannot run as founder/god mode.\nCurrent identity: ",
        ).concat(email).concat(" (").concat(identity.user_id.as_str()).concat(
            ")\nFounder mode is reserved for `logline founder bootstrap` only.\nFix: log in as your operator/service user, not the founder account.",
        );
        return Err(CliError { message: msg });
    }
    Ok(())
}

/// What infrastructure commands require: an unexpired token, a passkey login, and
/// not the founder.
pub fn require_infra_identity(
    session: Option<SessionToken>,
    identity: Option<AuthIdentity>,
    now: u64,
) -> (r: Result<(SessionToken, AuthIdentity), CliError>)
    ensures
        r is Ok <==> ({
            &&& session is Some && session->0.expires_at > now
            &&& identity is Some && identity->0.auth_method@ == "passkey"@
            &&& !identity->0.is_founder
        }),
        r is Ok ==> r->Ok_0.0 == session->0 && r->Ok_0.1 == identity->0,
        r is Err ==> r->Err_0.message@ == (if token_refusal(session, now) is Some {
            token_refusal(session, now)->0
        } else if passkey_refusal(identity) is Some {
            passkey_refusal(identity)->0
        } else {
            founder_refusal(identity->0)->0
        }),
{
    let session = require_unlocked(session, now)?;
    let identity = require_passkey_identity(identity)?;
    require_non_founder(&identity)?;
    Ok((session, identity))
}

} // verus!
