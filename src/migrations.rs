//! Which database migrations are still to be applied.

use vstd::prelude::*;
use crate::text::str_eq;

verus! {

/// Is `name` among `applied`?
pub open spec fn is_applied(applied: Seq<String>, name: Seq<char>) -> bool {
    exists|k: int| 0 <= k < applied.len() && #[trigger] applied[k]@ == name
}

/// The names of `files`, in order, that `applied` does not list.
pub open spec fn pending_of(files: Seq<String>, applied: Seq<String>) -> Seq<Seq<char>>
    decreases files.len(),
{
    if files.len() == 0 {
        Seq::empty()
    } else {
        let earlier = pending_of(files.drop_last(), applied);
        if is_applied(applied, files.last()@) {
            earlier
        } else {
            earlier.push(files.last()@)
        }
    }
}

fn applied_holds(applied: &Vec<String>, name: &String) -> (r: bool)
    ensures
        r == is_applied(applied@, name@),
{
    let mut i: usize = 0;
    while i < applied.len()
        invariant
            i <= applied@.len(),
            forall|k: int| 0 <= k < i ==> #[trigger] applied@[k]@ != name@,
        decreases applied@.len() - i,
    {
        if str_eq(applied[i].as_str(), name.as_str()) {
            return true;
        }
        i = i + 1;
    }
    false
}

/// The migration files not yet recorded as applied, in file order.
pub fn get_pending_migration_names(files: &Vec<String>, applied: &Vec<String>) -> (r: Vec<String>)
    ensures
        r@.map_values(|s: String| s@) == pending_of(files@, applied@),
{
    let mut out: Vec<String> = Vec::new();
    let mut i: usize = 0;
    while i < files.len()
        invariant
            i <= files@.len(),
            out@.map_values(|s: String| s@) == pending_of(files@.subrange(0, i as int), applied@),
        decreases files@.len() - i,
    {
        let ghost prefix = files@.subrange(0, i + 1);
        assert(prefix.drop_last() == files@.subrange(0, i as int));
        assert(prefix.last() == files@[i as int]);
        if !applied_holds(applied, &files[i]) {
            out.push(files[i].clone());
        }
        i = i + 1;
    }
    assert(files@.subrange(0, files@.len() as int) == files@);
    out
}

} // verus!
