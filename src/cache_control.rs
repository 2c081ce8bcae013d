//! How long a fetched document may be reused, from its `Cache-Control` header.

use vstd::prelude::*;
use crate::number::{parse_u64, parse_u64_seq};
use crate::text::{has_prefix, matches_at, trim, trim_seq};

verus! {

/// Reuse period, in seconds, when the response names none.
pub const DEFAULT_MAX_AGE_SECONDS: u64 = 300;

/// The pieces of `s` between occurrences of `sep`, in order (`str::split`).
pub open spec fn split_seq(s: Seq<char>, sep: char) -> Seq<Seq<char>>
    decreases s.len(),
{
    if s.len() == 0 {
        seq![Seq::empty()]
    } else {
        let parts = split_seq(s.drop_last(), sep);
        if s.last() == sep {
            parts.push(Seq::empty())
        } else {
            parts.update(parts.len() - 1, parts.last().push(s.last()))
        }
    }
}

pub open spec fn max_age_token() -> Seq<char> {
    seq!['m', 'a', 'x', '-', 'a', 'g', 'e', '=']
}

/// The value of one directive if it reads `max-age=<integer>`, white space aside.
pub open spec fn directive_max_age(part: Seq<char>) -> Option<u64> {
    let p = trim_seq(part);
    if has_prefix(p, max_age_token()) {
        parse_u64_seq(trim_seq(p.skip(8)))
    } else {
        None
    }
}

/// The value of the first directive, in order, that is a well-formed `max-age`.
pub open spec fn first_max_age(parts: Seq<Seq<char>>) -> Option<u64>
    decreases parts.len(),
{
    if parts.len() == 0 {
        None
    } else {
        let earlier = first_max_age(parts.drop_last());
        if earlier is Some {
            earlier
        } else {
            directive_max_age(parts.last())
        }
    }
}

/// The `max-age` that a `Cache-Control` value grants, if any.
pub open spec fn cache_control_max_age(cc: Seq<char>) -> Option<u64> {
    first_max_age(split_seq(cc, ','))
}

fn directive_max_age_exec(part: &str) -> (r: Option<u64>)
    ensures
        r == directive_max_age(part@),
{
    let p = trim(part);
    let token = "max-age=";
    proof {
        reveal_strlit("max-age=");
    }
    assert(token@ == max_age_token());
    if matches_at(p, 0, token) {
        let rest = p.substring_char(8, p.unicode_len());
        assert(rest@ == p@.skip(8));
        parse_u64(trim(rest))
    } else {
        None
    }
}

/// Parses the `max-age=<integer>` directive out of a `Cache-Control` header value.
/// Directives are separated by commas; the first well-formed one wins.
pub fn parse_cache_control_max_age(cc: &str) -> (r: Option<u64>)
    ensures
        r == cache_control_max_age(cc@),
{
    let n = cc.unicode_len();
    let mut start: usize = 0;
    let mut i: usize = 0;
    let mut found: Option<u64> = None;
    let ghost mut done: Seq<Seq<char>> = Seq::empty();
    assert(cc@.subrange(0, 0) == Seq::<char>::empty());
    while i < n
        invariant
            n == cc@.len(),
            start <= i <= n,
            split_seq(cc@.subrange(0, i as int), ',') == done.push(
                cc@.subrange(start as int, i as int),
            ),
            found == first_max_age(done),
        decreases n - i,
    {
        let c = cc.get_char(i);
        let ghost before = cc@.subrange(0, i as int);
        let ghost after = cc@.subrange(0, i + 1);
        assert(after.drop_last() == before);
        assert(after.last() == c);
        if c == ',' {
            let part = cc.substring_char(start, i);
            if found.is_none() {
                found = directive_max_age_exec(part);
            }
            proof {
                let old_done = done;
                done = done.push(cc@.subrange(start as int, i as int));
                assert(done.drop_last() == old_done);
            }
            start = i + 1;
            assert(cc@.subrange(start as int, i + 1) == Seq::<char>::empty());
        } else {
            assert(cc@.subrange(start as int, i + 1) == cc@.subrange(start as int, i as int).push(
                c,
            ));
        }
        i = i + 1;
    }
    assert(cc@.subrange(0, n as int) == cc@);
    let last = cc.substring_char(start, n);
    let ghost parts = done.push(cc@.subrange(start as int, n as int));
    assert(parts.drop_last() == done);
    if found.is_none() {
        found = directive_max_age_exec(last);
    }
    found
}

/// How long, in seconds, a fetched document may be cached: the `max-age` it was
/// served with (or the default when there is none), but never more than `cap`.
pub open spec fn ttl_seconds(max_age: Option<u64>, cap: u64) -> u64 {
    let granted = match max_age {
        Some(a) => a,
        None => DEFAULT_MAX_AGE_SECONDS,
    };
    if granted <= cap {
        granted
    } else {
        cap
    }
}

pub fn compute_ttl_seconds(max_age: Option<u64>, cap: u64) -> (r: u64)
    ensures
        r == ttl_seconds(max_age, cap),
{
    let granted = match max_age {
        Some(a) => a,
        None => DEFAULT_MAX_AGE_SECONDS,
    };
    if granted <= cap {
        granted
    } else {
        cap
    }
}

} // verus!
