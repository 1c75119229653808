//! Small verified helpers on byte buffers.

use vstd::prelude::*;

verus! {

/// Appends the bytes of `src` to `out`.
pub fn append(out: &mut Vec<u8>, src: &[u8])
    ensures
        final(out)@ == old(out)@ + src@,
{
    let ghost before = out@;
    let mut i: usize = 0;
    while i < src.len()
        invariant
            i <= src@.len(),
            out@ == before + src@.subrange(0, i as int),
        decreases src@.len() - i,
    {
        out.push(src[i]);
        i += 1;
        assert(out@ =~= before + src@.subrange(0, i as int));
    }
    assert(src@.subrange(0, src@.len() as int) =~= src@);
}

/// The `N` bytes of `src` that start at index `at`.
pub fn take_array<const N: usize>(src: &[u8], at: usize) -> (out: [u8; N])
    requires
        at + N <= src@.len(),
    ensures
        out@ == src@.subrange(at as int, at + N),
{
    let len = src.len();
    let mut out: [u8; N] = [0u8; N];
    let mut i: usize = 0;
    while i < N
        invariant
            i <= N,
            at + N <= len == src@.len(),
            forall|j: int| 0 <= j < i ==> out@[j] == src@[at + j],
        decreases N - i,
    {
        out[i] = src[at + i];
        i += 1;
    }
    assert(out@ =~= src@.subrange(at as int, at + N));
    out
}

/// A copy of the bytes of `src` from index `from` up to, not including, `to`.
pub fn copy_range(src: &[u8], from: usize, to: usize) -> (out: Vec<u8>)
    requires
        from <= to <= src@.len(),
    ensures
        out@ == src@.subrange(from as int, to as int),
{
    let mut out: Vec<u8> = Vec::new();
    let mut i: usize = from;
    while i < to
        invariant
            from <= i <= to <= src@.len(),
            out@ == src@.subrange(from as int, i as int),
        decreases to - i,
    {
        out.push(src[i]);
        i += 1;
        assert(out@ =~= src@.subrange(from as int, i as int));
    }
    out
}

/// Overwrites every byte of `buf` with zero, keeping its length.
pub fn zeroize(buf: &mut Vec<u8>)
    ensures
        final(buf)@.len() == old(buf)@.len(),
        forall|i: int| 0 <= i < final(buf)@.len() ==> final(buf)@[i] == 0u8,
{
    let n = buf.len();
    let mut i: usize = 0;
    while i < n
        invariant
            i <= n,
            buf@.len() == n,
            forall|j: int| 0 <= j < i ==> buf@[j] == 0u8,
        decreases n - i,
    {
        buf[i] = 0u8;
        i += 1;
    }
}

/// Overwrites every byte of the array with zero.
pub fn zeroize_array<const N: usize>(buf: &mut [u8; N])
    ensures
        forall|i: int| 0 <= i < N ==> final(buf)@[i] == 0u8,
{
    let mut i: usize = 0;
    while i < N
        invariant
            i <= N,
            forall|j: int| 0 <= j < i ==> buf@[j] == 0u8,
        decreases N - i,
    {
        buf[i] = 0u8;
        i += 1;
    }
}

} // verus!
