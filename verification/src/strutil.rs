//! Verified string helpers: equality of string slices and the fixed-prefix
//! tests that drive cone classification and settings lookup.

use vstd::prelude::*;

verus! {

/// Whether two string slices hold the same characters.
pub fn str_eq(a: &str, b: &str) -> (r: bool)
    ensures
        r == (a@ == b@),
{
    let alen = a.unicode_len();
    let blen = b.unicode_len();
    if alen != blen {
        return false;
    }
    let mut i: usize = 0;
    while i < alen
        invariant
            i <= alen,
            alen == a@.len(),
            alen == b@.len(),
            forall|j: int| 0 <= j < i ==> a@[j] == b@[j],
        decreases alen - i,
    {
        if a.get_char(i) != b.get_char(i) {
            return false;
        }
        i = i + 1;
    }
    proof {
        assert(a@ =~= b@);
    }
    true
}

/// Whether the label's first character is `c`.
pub open spec fn spec_first_is(s: Seq<char>, c: char) -> bool {
    s.len() >= 1 && s[0] == c
}

/// Whether the label's first two characters are `c0` then `c1`.
pub open spec fn spec_first_two_are(s: Seq<char>, c0: char, c1: char) -> bool {
    s.len() >= 2 && s[0] == c0 && s[1] == c1
}

/// Tests whether a label begins with the single character `c`.
pub fn first_is(s: &str, c: char) -> (r: bool)
    ensures
        r == spec_first_is(s@, c),
{
    if s.unicode_len() >= 1 {
        s.get_char(0) == c
    } else {
        false
    }
}

/// Tests whether a label begins with the two characters `c0`, `c1`.
pub fn first_two_are(s: &str, c0: char, c1: char) -> (r: bool)
    ensures
        r == spec_first_two_are(s@, c0, c1),
{
    if s.unicode_len() >= 2 {
        s.get_char(0) == c0 && s.get_char(1) == c1
    } else {
        false
    }
}

} // verus!
