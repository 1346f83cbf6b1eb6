//! Text helpers: comparing text, and reading a "count item" pair.

use crate::parse::{parse_u64, u64_value};
use vstd::prelude::*;

verus! {

/// Whether `a` and `b` hold the same characters.
pub fn same_text(a: &str, b: &str) -> (r: bool)
    ensures
        r == (a@ == b@),
{
    let n = a.unicode_len();
    if n != b.unicode_len() {
        return false;
    }
    let mut i: usize = 0;
    while i < n
        invariant
            i <= n,
            n == a@.len(),
            n == b@.len(),
            forall|k: int| 0 <= k < i ==> a@[k] == b@[k],
        decreases n - i,
    {
        if a.get_char(i) != b.get_char(i) {
            return false;
        }
        i = i + 1;
    }
    assert(a@ =~= b@);
    true
}

/// The index of the first space in `s` at or after `from`, or `s.len()` when
/// there is none.
pub open spec fn space_from(s: Seq<char>, from: int) -> int
    decreases s.len() - from,
{
    if from >= s.len() {
        s.len() as int
    } else if s[from] == ' ' {
        from
    } else {
        space_from(s, from + 1)
    }
}

proof fn lemma_space_from_bounds(s: Seq<char>, from: int)
    requires
        0 <= from <= s.len(),
    ensures
        from <= space_from(s, from) <= s.len(),
        space_from(s, from) < s.len() ==> s[space_from(s, from)] == ' ',
    decreases s.len() - from,
{
    if from < s.len() && s[from] != ' ' {
        lemma_space_from_bounds(s, from + 1);
    }
}

fn find_space(s: &str, from: usize) -> (r: usize)
    requires
        from <= s@.len(),
    ensures
        r == space_from(s@, from as int),
{
    let n = s.unicode_len();
    let mut i = from;
    while i < n
        invariant
            from <= i <= n,
            n == s@.len(),
            space_from(s@, from as int) == space_from(s@, i as int),
        decreases n - i,
    {
        if s.get_char(i) == ' ' {
            return i;
        }
        i = i + 1;
    }
    i
}

/// What `let_else` reads from `s`: the words before the first space and
/// between the first and second space, the first as a `u64`.
pub open spec fn count_item(s: Seq<char>) -> Option<(u64, Seq<char>)> {
    let p = space_from(s, 0);
    if p < s.len() {
        let q = space_from(s, p + 1);
        match u64_value(s.subrange(0, p)) {
            Some(count) => Some((count, s.subrange(p + 1, q))),
            None => None,
        }
    } else {
        None
    }
}

/// Reads a "count item" pair such as `3 chairs` from the first two
/// space-separated words of `s`; `s` must hold a space, and its first word
/// must be a `u64`.
pub fn let_else(s: &str) -> (r: (u64, String))
    requires
        count_item(s@) is Some,
    ensures
        count_item(s@) == Some((r.0, r.1@)),
{
    proof {
        lemma_space_from_bounds(s@, 0);
    }
    let n = s.unicode_len();
    let p = find_space(s, 0);
    assert(p < n);
    proof {
        lemma_space_from_bounds(s@, p + 1);
    }
    let q = find_space(s, p + 1);
    let count_str = s.substring_char(0, p);
    let count = match parse_u64(count_str) {
        Ok(count) => count,
        Err(_) => {
            proof {
                assert(false);
            }
            0
        },
    };
    let item = s.substring_char(p + 1, q);
    (count, item.to_owned())
}

} // verus!
