//! Byte-substring search, used to recognise WAL file paths.

use vstd::prelude::*;

verus! {

/// The needle `n` occurs in the haystack `h` starting at offset `i`.
pub open spec fn matches_at(h: Seq<u8>, n: Seq<u8>, i: int) -> bool {
    &&& 0 <= i
    &&& i + n.len() <= h.len()
    &&& forall|j: int| 0 <= j < n.len() ==> h[i + j] == n[j]
}

/// The needle `n` occurs somewhere in the haystack `h`.
pub open spec fn contains_seq(h: Seq<u8>, n: Seq<u8>) -> bool {
    exists|i: int| matches_at(h, n, i)
}

/// Whether `needle` occurs as a contiguous run of bytes inside `haystack`.
/// An empty needle occurs in every haystack.
pub fn contains(haystack: &[u8], needle: &[u8]) -> (r: bool)
    ensures
        r == contains_seq(haystack@, needle@),
{
    let h_len = haystack.len();
    let n_len = needle.len();
    if n_len > h_len {
        assert(forall|i: int| !matches_at(haystack@, needle@, i));
        return false;
    }
    let mut i: usize = 0;
    while i <= h_len - n_len
        invariant
            n_len == needle@.len(),
            h_len == haystack@.len(),
            n_len <= h_len,
            i <= h_len - n_len + 1,
            forall|k: int| 0 <= k < i ==> !matches_at(haystack@, needle@, k),
        decreases h_len - n_len - i + 1,
    {
        let mut j: usize = 0;
        let mut mismatch = false;
        while j < n_len
            invariant
                n_len == needle@.len(),
                h_len == haystack@.len(),
                i + n_len <= h_len,
                j <= n_len,
                !mismatch ==> forall|t: int| 0 <= t < j ==> haystack@[i + t] == needle@[t],
                mismatch ==> !matches_at(haystack@, needle@, i as int),
            decreases n_len - j,
        {
            if haystack[i + j] != needle[j] {
                mismatch = true;
                j = n_len;
            } else {
                j = j + 1;
            }
        }
        if !mismatch {
            assert(matches_at(haystack@, needle@, i as int));
            return true;
        }
        i = i + 1;
    }
    assert(forall|k: int| !matches_at(haystack@, needle@, k));
    false
}

} // verus!
