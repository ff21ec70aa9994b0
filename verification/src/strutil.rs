//! Small verified text helpers: character-exact comparison, prefix
//! tests, suffix extraction, and the one trusted call for uppercasing.

use vstd::prelude::*;

verus! {

/// Character-exact string equality.
pub fn str_eq(a: &str, b: &str) -> (r: bool)
    ensures
        r == (a@ == b@),
{
    let n = a.unicode_len();
    let m = b.unicode_len();
    if n != m {
        return false;
    }
    let mut i: usize = 0;
    while i < n
        invariant
            i <= n,
            n == a@.len(),
            n == b@.len(),
            forall|j: int| 0 <= j < i ==> a@[j] == b@[j],
        decreases n - i,
    {
        if a.get_char(i) != b.get_char(i) {
            return false;
        }
        i += 1;
    }
    proof {
        assert(a@ =~= b@);
    }
    true
}

/// Whether one character sequence begins with another.
pub open spec fn spec_starts(s: Seq<char>, p: Seq<char>) -> bool {
    s.len() >= p.len() && s.subrange(0, p.len() as int) == p
}

/// Whether `s` begins with the characters of `p`.
pub fn str_starts_with(s: &str, p: &str) -> (r: bool)
    ensures
        r == spec_starts(s@, p@),
{
    let n = s.unicode_len();
    let m = p.unicode_len();
    if n < m {
        return false;
    }
    let mut i: usize = 0;
    while i < m
        invariant
            i <= m,
            m == p@.len(),
            n == s@.len(),
            n >= m,
            forall|j: int| 0 <= j < i ==> s@[j] == p@[j],
        decreases m - i,
    {
        if s.get_char(i) != p.get_char(i) {
            proof {
                assert(s@.subrange(0, p@.len() as int)[i as int] == s@[i as int]);
            }
            return false;
        }
        i += 1;
    }
    proof {
        assert(s@.subrange(0, p@.len() as int) =~= p@);
    }
    true
}

/// The characters of `s` from position `k` on, as an owned string.
pub fn str_tail(s: &str, k: usize) -> (r: String)
    requires
        k <= s@.len(),
    ensures
        r@ == s@.skip(k as int),
{
    let n = s.unicode_len();
    let t = s.substring_char(k, n);
    proof {
        assert(t@ =~= s@.skip(k as int));
    }
    t.to_owned()
}

/// The uppercased form of a character sequence, as `str::to_uppercase`
/// defines it. The result depends on the characters alone.
pub uninterp spec fn upper_of(s: Seq<char>) -> Seq<char>;

/// Relies on str::to_uppercase: the Unicode uppercase mapping of the
/// string, a function of its characters alone.
#[verifier::external_body]
pub fn to_uppercase(s: &str) -> (r: String)
    ensures
        r@ == upper_of(s@),
{
    s.to_uppercase()
}

} // verus!
