//! Comparing a stretch of a string slice with a pattern, character by
//! character.

use vstd::prelude::*;

verus! {

/// `pat` stands in `s`, starting at the character with index `from`.
pub open spec fn occurs_at(s: Seq<char>, from: int, pat: Seq<char>) -> bool {
    &&& 0 <= from
    &&& from + pat.len() <= s.len()
    &&& s.subrange(from, from + pat.len()) == pat
}

/// `pat` is how `s` begins.
pub open spec fn has_prefix(s: Seq<char>, pat: Seq<char>) -> bool {
    occurs_at(s, 0, pat)
}

/// Tells whether `pat` stands in `s` at the character with index `from`.
pub fn matches_at(s: &str, from: usize, pat: &str) -> (found: bool)
    ensures
        found == occurs_at(s@, from as int, pat@),
{
    let len: usize = s.unicode_len();
    let pat_len: usize = pat.unicode_len();
    if from > len || pat_len > len - from {
        return false;
    }
    let mut i: usize = 0;
    while i < pat_len
        invariant
            i <= pat_len,
            len == s@.len(),
            pat_len == pat@.len(),
            from + pat_len <= len,
            forall|k: int| 0 <= k < i ==> s@[from + k] == pat@[k],
        decreases pat_len - i,
    {
        if s.get_char(from + i) != pat.get_char(i) {
            assert(s@.subrange(from as int, from + pat_len)[i as int] != pat@[i as int]);
            return false;
        }
        i += 1;
    }
    assert(s@.subrange(from as int, from + pat_len) =~= pat@);
    true
}

} // verus!
