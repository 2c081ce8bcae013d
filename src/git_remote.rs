//! Owner and repository of a GitHub remote URL, in HTTPS or SSH form.

use vstd::prelude::*;
use crate::tenant::{after_last, strip_suffixes, strip_trailing};
use crate::text::matches_at;

verus! {

/// `s` with every occurrence of `p` (non-empty), scanned from the left, replaced by `q`.
pub open spec fn replace_all(s: Seq<char>, p: Seq<char>, q: Seq<char>) -> Seq<char>
    decreases s.len(),
{
    if s.len() == 0 || p.len() == 0 {
        s
    } else if p.len() <= s.len() && s.subrange(0, p.len() as int) == p {
        q + replace_all(s.skip(p.len() as int), p, q)
    } else {
        seq![s[0]] + replace_all(s.drop_first(), p, q)
    }
}

fn replace_all_exec(s: &str, p: &str, q: &str) -> (r: String)
    requires
        p@.len() > 0,
    ensures
        r@ == replace_all(s@, p@, q@),
{
    let n = s.unicode_len();
    let m = p.unicode_len();
    let mut out = String::new();
    let mut i: usize = 0;
    assert(s@.skip(0) == s@);
    while i < n
        invariant
            n == s@.len(),
            m == p@.len(),
            m > 0,
            i <= n,
            replace_all(s@, p@, q@) == out@ + replace_all(s@.skip(i as int), p@, q@),
        decreases n - i,
    {
        let ghost rest = s@.skip(i as int);
        if m <= n - i && matches_at(s, i, p) {
            assert(rest.subrange(0, m as int) == s@.subrange(i as int, i + m));
            assert(rest.skip(m as int) == s@.skip(i + m));
            out.append(q);
            i = i + m;
        } else {
            proof {
                if m <= rest.len() {
                    assert(rest.subrange(0, m as int) == s@.subrange(i as int, i + m));
                }
            }
            assert(rest.drop_first() == s@.skip(i + 1));
            assert(rest[0] == s@[i as int]);
            out.append(s.substring_char(i, i + 1));
            i = i + 1;
        }
    }
    assert(s@.skip(n as int) == Seq::<char>::empty());
    out
}

/// The remote with `.git` suffixes removed, SSH form rewritten to HTTPS, and
/// trailing slashes removed.
pub open spec fn cleaned_remote(url: Seq<char>) -> Seq<char> {
    strip_trailing(
        replace_all(strip_suffixes(url, ".git"@), "git@github.com:"@, "https://github.com/"@),
        '/',
    )
}

/// `t` without its last `/`-separated segment and that `/`.
pub open spec fn without_last_segment(t: Seq<char>) -> Seq<char> {
    t.subrange(0, t.len() - after_last(t, '/').len() - 1)
}

/// (owner, repository): the last two `/`-separated segments of the cleaned remote,
/// if it has at least two.
pub open spec fn remote_owner_repo(url: Seq<char>) -> Option<(Seq<char>, Seq<char>)> {
    let t = cleaned_remote(url);
    if t.contains('/') {
        Some((after_last(without_last_segment(t), '/'), after_last(t, '/')))
    } else {
        None
    }
}

proof fn lemma_after_last_suffix(t: Seq<char>)
    ensures
        after_last(t, '/').len() <= t.len(),
        t.contains('/') ==> after_last(t, '/').len() < t.len() && t[t.len() - after_last(t, '/').len() - 1] == '/',
        t.contains('/') ==> t.subrange(t.len() - after_last(t, '/').len(), t.len() as int) == after_last(t, '/'),
        !t.contains('/') ==> after_last(t, '/') == t,
    decreases t.len(),
{
    if t.len() > 0 && t.last() != '/' {
        lemma_after_last_suffix(t.drop_last());
        if t.contains('/') {
            let k = choose|k: int| 0 <= k < t.len() && t[k] == '/';
            assert(t.drop_last()[k] == '/');
        } else {
            assert(!t.drop_last().contains('/')) by {
                if t.drop_last().contains('/') {
                    let k = choose|k: int| 0 <= k < t.drop_last().len() && t.drop_last()[k] == '/';
                    assert(t[k] == '/');
                }
            }
            assert(t.drop_last().push(t.last()) == t);
        }
    } else if t.len() > 0 {
        assert(t[t.len() - 1] == '/');
    }
}

/// Owner and repository of a GitHub remote URL.
pub fn parse_remote(url: &str) -> (r: Option<(String, String)>)
    ensures
        match (r, remote_owner_repo(url@)) {
            (Some((owner, repo)), Some((o, p))) => owner@ == o && repo@ == p,
            (None, None) => true,
            _ => false,
        },
{
    proof {
        reveal_strlit(".git");
        reveal_strlit("git@github.com:");
    }
    let stripped = crate::tenant::strip_suffixes_exec(url, ".git");
    let replaced = replace_all_exec(stripped, "git@github.com:", "https://github.com/");
    let t = crate::tenant::strip_trailing_exec(replaced.as_str(), '/');
    let repo = crate::tenant::after_last_exec(t, '/');
    let n = t.unicode_len();
    let k = repo.unicode_len();
    proof {
        lemma_after_last_suffix(t@);
    }
    if k >= n {
        return None;
    }
    let head = t.substring_char(0, n - k - 1);
    let owner = crate::tenant::after_last_exec(head, '/');
    Some((String::from_str(owner), String::from_str(repo)))
}

} // verus!
