//! Command-line access tokens: their time-to-live and the check that requires one.

use vstd::prelude::*;
use crate::number::{decimal, decimal_of, parse_u64, parse_u64_seq};
use crate::tenant::{lowercase_of, to_lowercase};
use crate::text::{trim, trim_seq};

verus! {

/// A failed command-line precondition, with the message shown to the user.
#[derive(Debug, Clone)]
pub struct CliError {
    pub message: String,
}

pub fn cli_error(msg: &str) -> (r: CliError)
    ensures
        r.message@ == msg@,
{
    CliError { message: String::from_str(msg) }
}

/// An unlock token, valid until `expires_at` (seconds since the epoch).
#[derive(Debug, Clone)]
pub struct SessionToken {
    pub session_id: String,
    pub expires_at: u64,
    pub opened_by: String,
}

/// The seconds a TTL such as `5m`, `2h` or `30s` stands for (case and surrounding
/// white space ignored), if it is well formed and fits in 64 bits.
pub open spec fn ttl_seconds_of(ttl: Seq<char>) -> Option<u64> {
    let s = lowercase_of(trim_seq(ttl));
    if s.len() > 0 && (s.last() == 'm' || s.last() == 'h' || s.last() == 's') {
        let unit: nat = if s.last() == 'm' {
            60
        } else if s.last() == 'h' {
            3600
        } else {
            1
        };
        match parse_u64_seq(s.drop_last()) {
            Some(n) => if n * unit <= u64::MAX {
                Some((n * unit) as u64)
            } else {
                None
            },
            None => None,
        }
    } else {
        None
    }
}

/// Parses an unlock TTL such as `5m`, `30m`, `2h` or `45s` into seconds.
pub fn parse_ttl(ttl: &str) -> (r: Result<u64, CliError>)
    ensures
        r is Ok <==> ttl_seconds_of(ttl@) is Some,
        r is Ok ==> r->Ok_0 == ttl_seconds_of(ttl@)->0,
{
    let s = to_lowercase(trim(ttl));
    let n = s.unicode_len();
    if n == 0 {
        return Err(cli_error("Invalid TTL format. Use e.g. '5m', '30m', '2h'"));
    }
    let last = s.get_char(n - 1);
    let unit: u64 = if last == 'm' {
        60
    } else if last == 'h' {
        3600
    } else if last == 's' {
        1
    } else {
        return Err(cli_error("Invalid TTL format. Use e.g. '5m', '30m', '2h'"));
    };
    let digits = s.as_str().substring_char(0, n - 1);
    assert(digits@ == s@.drop_last());
    match parse_u64(digits) {
        Some(count) => match count.checked_mul(unit) {
            Some(secs) => Ok(secs),
            None => Err(cli_error("Invalid TTL: too long")),
        },
        None => Err(cli_error("Invalid TTL")),
    }
}

/// `Unlocked`-style remaining time: `"expired"`, or `"<h>h <m>m from now"`.
pub open spec fn expires_text(epoch: u64, now: u64) -> Seq<char> {
    if epoch <= now {
        "expired"@
    } else {
        let remaining = (epoch - now) as nat;
        decimal_of(remaining / 3600) + "h "@ + decimal_of((remaining % 3600) / 60) + "m from now"@
    }
}

/// How long until `epoch`, seen at `now` (both in seconds since the epoch).
pub fn format_expires(epoch: u64, now: u64) -> (r: String)
    ensures
        r@ == expires_text(epoch, now),
{
    if epoch <= now {
        return String::from_str("expired");
    }
    let remaining = epoch - now;
    let mut out = decimal(remaining / 3600);
    out.append("h ");
    out.append(decimal((remaining % 3600) / 60).as_str());
    out.append("m from now");
    out
}

/// A duration in seconds as `45s`, `12m` or `2h 5m`.
pub open spec fn ttl_remaining_text(secs: u64) -> Seq<char> {
    if secs < 60 {
        decimal_of(secs as nat) + "s"@
    } else if secs / 60 < 60 {
        decimal_of((secs / 60) as nat) + "m"@
    } else {
        decimal_of((secs / 3600) as nat) + "h "@ + decimal_of(((secs / 60) % 60) as nat) + "m"@
    }
}

pub fn format_ttl_remaining(secs: u64) -> (r: String)
    ensures
        r@ == ttl_remaining_text(secs),
{
    if secs < 60 {
        return decimal(secs).concat("s");
    }
    let mins = secs / 60;
    if mins < 60 {
        return decimal(mins).concat("m");
    }
    let hours = mins / 60;
    assert(hours == secs / 3600);
    let rem_mins = mins % 60;
    let mut out = decimal(hours);
    out.append("h ");
    out.append(decimal(rem_mins).as_str());
    out.append("m");
    out
}

/// Why a privileged command may not run with this token at `now`, if it may not.
pub open spec fn token_refusal(session: Option<SessionToken>, now: u64) -> Option<Seq<char>> {
    match session {
        None => Some("Session locked. Run `logline auth unlock` first."@),
        Some(s) => if s.expires_at > now {
            None
        } else {
            Some("Session expired. Run `logline auth unlock` to re-authenticate."@)
        },
    }
}

/// Check for privileged commands: an unlock token whose expiry lies after `now`.
pub fn require_unlocked(session: Option<SessionToken>, now: u64) -> (r: Result<SessionToken, CliError>)
    ensures
        r is Ok <==> token_refusal(session, now) is None,
        r is Ok ==> r->Ok_0 == session->0,
        r is Err ==> r->Err_0.message@ == token_refusal(session, now)->0,
{
    proof {
        reveal_strlit("Session locked. Run `logline auth unlock` first.");
        reveal_strlit("Session expired. Run `logline auth unlock` to re-authenticate.");
    }
    match session {
        None => Err(cli_error("Session locked. Run `logline auth unlock` first.")),
        Some(s) => {
            if s.expires_at > now {
                Ok(s)
            } else {
                Err(cli_error("Session expired. Run `logline auth unlock` to re-authenticate."))
            }
        },
    }
}

} // verus!
