//! Character-level helpers: ASCII lowercasing and character-wise string
//! comparison, the pieces the codec table and the operation names rest on.

use vstd::prelude::*;
use vstd::string::StrSliceExecFns;

verus! {

/// Lowercases one ASCII letter; every other character is left as it is.
pub open spec fn lower_char(c: char) -> char {
    if 'A' <= c && c <= 'Z' {
        (((c as u8) + 32) as char)
    } else {
        c
    }
}

/// A string lowercased character by character.
pub open spec fn lower_seq(s: Seq<char>) -> Seq<char> {
    s.map_values(|c: char| lower_char(c))
}

/// Lowercases one ASCII letter; every other character is left as it is.
pub(crate) fn lower_char_exec(c: char) -> (r: char)
    ensures
        r == lower_char(c),
{
    if 'A' <= c && c <= 'Z' {
        ((c as u8) + 32) as char
    } else {
        c
    }
}

/// Whether the characters of `s` between `from` and `to`, once lowercased,
/// spell exactly `target`.
pub(crate) fn range_lower_eq(s: &str, from: usize, to: usize, target: &str) -> (r: bool)
    requires
        from <= to <= s@.len(),
    ensures
        r == (lower_seq(s@.subrange(from as int, to as int)) == target@),
{
    let ghost sub = s@.subrange(from as int, to as int);
    let n = target.unicode_len();
    if to - from != n {
        proof {
            assert(lower_seq(sub).len() == sub.len());
        }
        return false;
    }
    let mut i: usize = 0;
    while i < n
        invariant
            i <= n,
            n == target@.len(),
            from <= to <= s@.len(),
            to - from == n,
            sub == s@.subrange(from as int, to as int),
            forall|j: int| 0 <= j < i ==> lower_char(sub[j]) == target@[j],
        decreases n - i,
    {
        let c = lower_char_exec(s.get_char(from + i));
        if c != target.get_char(i) {
            proof {
                assert(lower_seq(sub)[i as int] != target@[i as int]);
            }
            return false;
        }
        i = i + 1;
    }
    proof {
        assert(lower_seq(sub) =~= target@);
    }
    true
}

/// Whether `s` and `t` hold exactly the same characters.
pub(crate) fn str_eq_chars(s: &str, t: &str) -> (r: bool)
    ensures
        r == (s@ == t@),
{
    let n = s.unicode_len();
    if t.unicode_len() != n {
        return false;
    }
    let mut i: usize = 0;
    while i < n
        invariant
            i <= n,
            n == s@.len(),
            n == t@.len(),
            forall|j: int| 0 <= j < i ==> s@[j] == t@[j],
        decreases n - i,
    {
        if s.get_char(i) != t.get_char(i) {
            return false;
        }
        i = i + 1;
    }
    proof {
        assert(s@ =~= t@);
    }
    true
}

} // verus!
