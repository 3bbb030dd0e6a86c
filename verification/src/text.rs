//! Character-level text matching.
//!
//! Rule matching compares identifiers against fixed names and classifies
//! resolved call paths by substring containment, so equality and
//! containment over character sequences are proved here once and shared.

use vstd::prelude::*;
use vstd::string::*;

verus! {

/// Whether `needle` occurs contiguously in `haystack` starting at `at`.
pub open spec fn occurs_at(haystack: Seq<char>, needle: Seq<char>, at: int) -> bool {
    0 <= at && at + needle.len() <= haystack.len() && haystack.subrange(
        at,
        at + needle.len() as int,
    ) == needle
}

/// Whether `needle` occurs contiguously anywhere in `haystack`.
pub open spec fn contains_seq(haystack: Seq<char>, needle: Seq<char>) -> bool {
    exists|at: int| occurs_at(haystack, needle, at)
}

/// Character-for-character equality of two string slices.
pub fn str_eq(a: &str, b: &str) -> (r: bool)
    ensures
        r == (a@ == b@),
{
    let a_len = a.unicode_len();
    let b_len = b.unicode_len();
    if a_len != b_len {
        return false;
    }
    let mut i: usize = 0;
    while i < a_len
        invariant
            i <= a_len,
            a_len == a@.len(),
            a_len == b@.len(),
            forall|j: int| 0 <= j < i ==> a@[j] == b@[j],
        decreases a_len - i,
    {
        if a.get_char(i) != b.get_char(i) {
            return false;
        }
        i = i + 1;
    }
    proof {
        assert(a@ =~= b@);
    }
    true
}

/// Whether `needle` occurs contiguously anywhere in `haystack`.
pub fn str_contains(haystack: &str, needle: &str) -> (r: bool)
    ensures
        r == contains_seq(haystack@, needle@),
{
    let h_len = haystack.unicode_len();
    let n_len = needle.unicode_len();
    if n_len > h_len {
        return false;
    }
    if n_len == 0 {
        proof {
            assert(haystack@.subrange(0, 0) =~= needle@);
            assert(occurs_at(haystack@, needle@, 0));
        }
        return true;
    }
    let mut at: usize = 0;
    while at <= h_len - n_len
        invariant
            0 < n_len <= h_len,
            h_len == haystack@.len(),
            n_len == needle@.len(),
            at <= h_len - n_len + 1,
            forall|k: int| 0 <= k < at ==> !occurs_at(haystack@, needle@, k),
        decreases h_len - n_len - at + 1,
    {
        let mut j: usize = 0;
        let mut mismatch = false;
        while j < n_len
            invariant
                at + n_len <= h_len,
                h_len == haystack@.len(),
                n_len == needle@.len(),
                j <= n_len,
                !mismatch ==> forall|m: int| 0 <= m < j ==> haystack@[at + m] == needle@[m],
                mismatch ==> !occurs_at(haystack@, needle@, at as int),
            decreases n_len - j,
        {
            if haystack.get_char(at + j) != needle.get_char(j) {
                proof {
                    let sub = haystack@.subrange(at as int, at + n_len as int);
                    assert(sub[j as int] != needle@[j as int]);
                }
                mismatch = true;
                j = n_len;
            } else {
                j = j + 1;
            }
        }
        if !mismatch {
            proof {
                assert(haystack@.subrange(at as int, at + n_len as int) =~= needle@);
                assert(occurs_at(haystack@, needle@, at as int));
            }
            return true;
        }
        at = at + 1;
    }
    proof {
        assert(forall|k: int| occurs_at(haystack@, needle@, k) ==> 0 <= k <= h_len - n_len);
    }
    false
}

} // verus!
