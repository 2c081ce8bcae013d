//! Credential names, lookups with an environment fallback, and `.env` files.

use vstd::prelude::*;
use crate::cache_control::split_seq;
use crate::session::{cli_error, CliError};
use crate::text::{after_first, before_first, first_index, split_bounds, str_eq, trim, trim_seq};

verus! {

/// Where to reach the hosted backend.
#[derive(Debug, Clone)]
pub struct SupabaseConfig {
    pub url: String,
    pub anon_key: String,
}

/// The user of a token response.
#[derive(Debug, Clone)]
pub struct AuthUser {
    pub id: String,
    pub email: Option<String>,
}

/// A successful login or refresh.
#[derive(Debug, Clone)]
pub struct AuthTokenResponse {
    pub access_token: String,
    pub refresh_token: String,
    pub expires_in: u64,
    pub token_type: String,
    pub user: AuthUser,
}

/// A credential key: non-empty, ASCII letters, digits and `_` only.
pub open spec fn key_valid(key: Seq<char>) -> bool {
    key.len() > 0 && forall|k: int|
        0 <= k < key.len() ==> (('a' <= #[trigger] key[k] && key[k] <= 'z') || ('A' <= key[k]
            && key[k] <= 'Z') || ('0' <= key[k] && key[k] <= '9') || key[k] == '_')
}

pub fn validate_key(key: &str) -> (r: Result<(), CliError>)
    ensures
        r is Ok <==> key_valid(key@),
        r is Err ==> r->Err_0.message@ == "Invalid key '"@ + key@
            + "'. Use lowercase alphanumeric + underscores (e.g. github_token)"@,
{
    proof {
        reveal_strlit("Invalid key '");
        reveal_strlit("'. Use lowercase alphanumeric + underscores (e.g. github_token)");
    }
    let n = key.unicode_len();
    let mut ok = n > 0;
    let mut i: usize = 0;
    while i < n && ok
        invariant
            n == key@.len(),
            i <= n,
            ok == (n > 0 && forall|k: int|
                0 <= k < i ==> (('a' <= #[trigger] key@[k] && key@[k] <= 'z') || ('A' <= key@[k]
                    && key@[k] <= 'Z') || ('0' <= key@[k] && key@[k] <= '9') || key@[k] == '_')),
        decreases n - i,
    {
        let c = key.get_char(i);
        if !(('a' <= c && c <= 'z') || ('A' <= c && c <= 'Z') || ('0' <= c && c <= '9') || c == '_') {
            ok = false;
        }
        i = i + 1;
    }
    if ok {
        Ok(())
    } else {
        Err(
            CliError {
                message: String::from_str("Invalid key '").concat(key).concat(
                    "'. Use lowercase alphanumeric + underscores (e.g. github_token)",
                ),
            },
        )
    }
}

/// The keychain value if there is one, else a non-empty environment value.
pub fn pick_credential(stored: Option<String>, env_value: Option<String>) -> (r: Option<String>)
    ensures
        stored is Some ==> r == stored,
        stored is None ==> (r is Some <==> (env_value is Some && env_value->0@.len() > 0)),
        stored is None && r is Some ==> r == env_value,
{
    match stored {
        Some(v) => Some(v),
        None => match env_value {
            Some(v) => {
                if v.unicode_len() > 0 {
                    Some(v)
                } else {
                    None
                }
            },
            None => None,
        },
    }
}

/// A credential that must be in the keychain; `stored` is what the keychain holds.
pub fn require_credential(key: &str, stored: Option<String>) -> (r: Result<String, CliError>)
    ensures
        r is Ok <==> stored is Some,
        r is Ok ==> r->Ok_0 == stored->0,
        r is Err ==> r->Err_0.message@ == "Credential '"@ + key@
            + "' not found in keychain.\nStore it with: logline secrets set "@ + key@,
{
    proof {
        reveal_strlit("Credential '");
        reveal_strlit("' not found in keychain.\nStore it with: logline secrets set ");
    }
    match stored {
        Some(v) => Ok(v),
        None => Err(
            CliError {
                message: String::from_str("Credential '").concat(key).concat(
                    "' not found in keychain.\nStore it with: logline secrets set ",
                ).concat(key),
            },
        ),
    }
}

/// A credential from the keychain or, failing that, a non-empty environment variable.
pub fn require_credential_or_env(
    keychain_key: &str,
    env_var: &str,
    stored: Option<String>,
    env_value: Option<String>,
) -> (r: Result<String, CliError>)
    ensures
        r is Ok <==> (stored is Some || (env_value is Some && env_value->0@.len() > 0)),
        r is Ok && stored is Some ==> r->Ok_0 == stored->0,
        r is Ok && stored is None ==> r->Ok_0 == env_value->0,
        r is Err ==> r->Err_0.message@ == "Credential '"@ + keychain_key@
            + "' not found.\nStore it with: logline secrets set "@ + keychain_key@
            + "\nOr set env var: "@ + env_var@,
{
    proof {
        reveal_strlit("Credential '");
        reveal_strlit("' not found.\nStore it with: logline secrets set ");
        reveal_strlit("\nOr set env var: ");
    }
    match pick_credential(stored, env_value) {
        Some(v) => Ok(v),
        None => Err(
            CliError {
                message: String::from_str("Credential '").concat(keychain_key).concat(
                    "' not found.\nStore it with: logline secrets set ",
                ).concat(keychain_key).concat("\nOr set env var: ").concat(env_var),
            },
        ),
    }
}

/// Splits a `KEY=VALUE` argument at its first `=`.
pub fn parse_key_val(s: &str) -> (r: Result<(String, String), String>)
    ensures
        r is Ok <==> s@.contains('='),
        r is Ok ==> r->Ok_0.0@ == before_first(s@, '=') && r->Ok_0.1@ == after_first(s@, '='),
{
    match first_index(s, '=') {
        Some(pos) => {
            let n = s.unicode_len();
            Ok((String::from_str(s.substring_char(0, pos)), String::from_str(s.substring_char(pos + 1, n))))
        },
        None => Err(String::from_str("must be KEY=VALUE")),
    }
}

/// A value without one pair of matching surrounding quotes, trimmed inside them.
pub open spec fn unquote(v: Seq<char>) -> Seq<char> {
    if v.len() >= 2 && ((v[0] == '"' && v.last() == '"') || (v[0] == '\'' && v.last() == '\'')) {
        trim_seq(v.subrange(1, v.len() - 1))
    } else {
        v
    }
}

/// The value of `key` in `.env` lines: blank lines and `#` comments are skipped; a
/// non-comment line without `=` ends the search; the first non-empty value wins.
pub open spec fn env_lookup(lines: Seq<Seq<char>>, key: Seq<char>) -> Option<Seq<char>>
    decreases lines.len(),
{
    if lines.len() == 0 {
        None
    } else {
        let line = trim_seq(lines[0]);
        if line.len() == 0 || line[0] == '#' {
            env_lookup(lines.drop_first(), key)
        } else if !line.contains('=') {
            None
        } else if trim_seq(before_first(line, '=')) != key {
            env_lookup(lines.drop_first(), key)
        } else if unquote(trim_seq(after_first(line, '='))).len() > 0 {
            Some(unquote(trim_seq(after_first(line, '='))))
        } else {
            env_lookup(lines.drop_first(), key)
        }
    }
}

fn unquote_exec(v: &str) -> (r: &str)
    ensures
        r@ == unquote(v@),
{
    let n = v.unicode_len();
    if n >= 2 {
        let first = v.get_char(0);
        let last = v.get_char(n - 1);
        if (first == '"' && last == '"') || (first == '\'' && last == '\'') {
            return trim(v.substring_char(1, n - 1));
        }
    }
    v
}

/// The value of `key` in the text of a `.env` file.
pub fn parse_env_value(content: &str, key: &str) -> (r: Option<String>)
    ensures
        r is Some <==> env_lookup(split_seq(content@, '\n'), key@) is Some,
        r is Some ==> r->0@ == env_lookup(split_seq(content@, '\n'), key@)->0,
{
    let bounds = split_bounds(content, '\n');
    let ghost lines = split_seq(content@, '\n');
    let mut i: usize = 0;
    assert(lines.skip(0) == lines);
    while i < bounds.len()
        invariant
            i <= bounds@.len(),
            bounds@.len() == lines.len(),
            lines == split_seq(content@, '\n'),
            forall|j: int|
                #![trigger bounds@[j]]
                0 <= j < bounds@.len() ==> bounds@[j].0 <= bounds@[j].1 <= content@.len()
                    && content@.subrange(bounds@[j].0 as int, bounds@[j].1 as int) == lines[j],
            env_lookup(lines, key@) == env_lookup(lines.skip(i as int), key@),
        decreases bounds@.len() - i,
    {
        let from = bounds[i].0;
        let to = bounds[i].1;
        let raw = content.substring_char(from, to);
        let line = trim(raw);
        let ghost rest = lines.skip(i as int);
        assert(rest[0] == lines[i as int]);
        assert(rest.drop_first() == lines.skip(i + 1));
        let len = line.unicode_len();
        if len == 0 || line.get_char(0) == '#' {
            i = i + 1;
            continue;
        }
        let pos = match first_index(line, '=') {
            Some(p) => p,
            None => return None,
        };
        let k = trim(line.substring_char(0, pos));
        let value = line.substring_char(pos + 1, len);
        assert(value@ == after_first(line@, '='));
        if !str_eq(k, key) {
            i = i + 1;
            continue;
        }
        let unquoted = unquote_exec(trim(value));
        if unquoted.unicode_len() > 0 {
            return Some(String::from_str(unquoted));
        }
        i = i + 1;
    }
    None
}

} // verus!
