//! Character-level string helpers used by the message grammar.

use vstd::prelude::*;

verus! {

/// Whether `p` is a prefix of `s`, character for character.
pub fn has_prefix(s: &str, p: &str) -> (b: bool)
    ensures
        b == p@.is_prefix_of(s@),
{
    let n: usize = p.unicode_len();
    let m: usize = s.unicode_len();
    if m < n {
        return false;
    }
    let mut i: usize = 0;
    while i < n
        invariant
            n == p@.len(),
            m == s@.len(),
            n <= m,
            i <= n,
            forall|j: int| 0 <= j < i ==> s@[j] == p@[j],
        decreases n - i,
    {
        if s.get_char(i) != p.get_char(i) {
            return false;
        }
        i = i + 1;
    }
    proof {
        assert(p@ =~= s@.subrange(0, p@.len() as int));
    }
    true
}

/// Whether `s` and `p` hold the same characters.
pub fn str_eq(s: &str, p: &str) -> (b: bool)
    ensures
        b == (s@ == p@),
{
    let n: usize = p.unicode_len();
    let m: usize = s.unicode_len();
    if m != n {
        return false;
    }
    let r = has_prefix(s, p);
    proof {
        if p@.is_prefix_of(s@) {
            assert(s@ =~= p@);
        } else {
            assert(s@ != p@);
        }
    }
    r
}

/// The text after `p` in `s`, as an owned string, if `p` is a prefix of `s`.
pub fn strip_prefix_str(s: &str, p: &str) -> (r: Option<String>)
    ensures
        r is Some <==> p@.is_prefix_of(s@),
        r matches Some(rest) ==> rest@ == s@.skip(p@.len() as int),
{
    if has_prefix(s, p) {
        let n: usize = p.unicode_len();
        let m: usize = s.unicode_len();
        let rest = s.substring_char(n, m);
        proof {
            assert(rest@ =~= s@.skip(p@.len() as int));
        }
        Some(String::from_str(rest))
    } else {
        None
    }
}

} // verus!
