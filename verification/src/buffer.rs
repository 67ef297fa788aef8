//! Bounds-checked helpers for reading and writing byte ranges of the
//! fixed-size buffers that hold the engine's records.

use vstd::prelude::*;
use vstd::slice::{slice_subrange, slice_to_vec};

verus! {

/// Copies `len` bytes of `src` starting at `start` into a fresh vector.
pub fn copy_range(src: &[u8], start: usize, len: usize) -> (r: Vec<u8>)
    requires
        start + len <= src@.len(),
    ensures
        r@ == src@.subrange(start as int, start as int + len as int),
{
    let n = src.len();
    proof {
        assert(start + len <= n);
    }
    slice_to_vec(slice_subrange(src, start, start + len))
}

/// Overwrites `dst[start .. start + src.len()]` with `src`, leaving every
/// other byte unchanged.
pub fn write_range(dst: &mut Vec<u8>, start: usize, src: &[u8])
    requires
        start + src@.len() <= old(dst)@.len(),
    ensures
        final(dst)@.len() == old(dst)@.len(),
        forall|i: int|
            start <= i < start + src@.len() ==> final(dst)@[i] == src@[i - start],
        forall|i: int|
            0 <= i < old(dst)@.len() && !(start <= i < start + src@.len()) ==> final(dst)@[i]
                == old(dst)@[i],
{
    let n = src.len();
    let m = dst.len();
    let mut j: usize = 0;
    while j < n
        invariant
            n == src@.len(),
            m == old(dst)@.len(),
            start + n <= old(dst)@.len(),
            0 <= j <= n,
            dst@.len() == old(dst)@.len(),
            forall|i: int| start <= i < start + j ==> dst@[i] == src@[i - start],
            forall|i: int|
                0 <= i < old(dst)@.len() && !(start <= i < start + j) ==> dst@[i] == old(
                    dst,
                )@[i],
        decreases n - j,
    {
        let b = *vstd::slice::slice_index_get(src, j);
        dst[start + j] = b;
        j += 1;
    }
}

/// Compares two byte slices for equality of their contents.
pub fn bytes_eq(a: &[u8], b: &[u8]) -> (r: bool)
    ensures
        r == (a@ == b@),
{
    if a.len() != b.len() {
        return false;
    }
    let n = a.len();
    let mut j: usize = 0;
    while j < n
        invariant
            n == a@.len(),
            n == b@.len(),
            0 <= j <= n,
            forall|i: int| 0 <= i < j ==> a@[i] == b@[i],
        decreases n - j,
    {
        if *vstd::slice::slice_index_get(a, j) != *vstd::slice::slice_index_get(b, j) {
            return false;
        }
        j += 1;
    }
    proof {
        assert(a@ =~= b@);
    }
    true
}

/// A fresh vector of `n` zero bytes.
pub fn zero_vec(n: usize) -> (r: Vec<u8>)
    ensures
        r@.len() == n,
        forall|i: int| 0 <= i < n ==> r@[i] == 0u8,
{
    let mut v: Vec<u8> = Vec::new();
    let mut j: usize = 0;
    while j < n
        invariant
            0 <= j <= n,
            v@.len() == j,
            forall|i: int| 0 <= i < j ==> v@[i] == 0u8,
        decreases n - j,
    {
        v.push(0u8);
        j += 1;
    }
    v
}

} // verus!
