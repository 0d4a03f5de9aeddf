//! Fixed-size byte arrays: copying them out of slices and into buffers.

use vstd::prelude::*;
use crate::error::KeyError;

verus! {

/// Copies a slice into an array of `N` bytes. A slice of any other length is
/// refused: nothing is cut off and nothing is padded.
pub fn array_from_slice<const N: usize>(bytes: &[u8]) -> (r: Result<[u8; N], KeyError>)
    ensures
        match r {
            Ok(out) => bytes@.len() == N && out@ == bytes@,
            Err(e) => bytes@.len() != N && e == (KeyError::WrongLength {
                expected: N,
                found: bytes.len(),
            }),
        },
{
    if bytes.len() != N {
        return Err(KeyError::WrongLength { expected: N, found: bytes.len() });
    }
    Ok(array_from_prefix(bytes))
}

/// Copies the first `N` bytes of `bytes` into an array.
pub(crate) fn array_from_prefix<const N: usize>(bytes: &[u8]) -> (out: [u8; N])
    requires
        N <= bytes@.len(),
    ensures
        out@ == bytes@.take(N as int),
{
    let mut out = [0u8; N];
    let mut i: usize = 0;
    while i < N
        invariant
            i <= N,
            N <= bytes@.len(),
            forall|j: int| 0 <= j < i ==> out@[j] == bytes@[j],
        decreases N - i,
    {
        out[i] = bytes[i];
        i += 1;
    }
    out
}

/// Writes `field` into `buf` at offset `at`, leaving every other byte of
/// `buf` as it was.
pub(crate) fn write_at<const N: usize, const M: usize>(
    buf: &mut [u8; N],
    at: usize,
    field: &[u8; M],
)
    requires
        at + M <= N,
    ensures
        final(buf)@ == old(buf)@.take(at as int) + field@ + old(buf)@.skip(at + M),
{
    let mut i: usize = 0;
    while i < M
        invariant
            i <= M,
            at + M <= N,
            forall|j: int| 0 <= j < at ==> buf@[j] == old(buf)@[j],
            forall|j: int| at <= j < at + i ==> buf@[j] == field@[j - at],
            forall|j: int| at + i <= j < N ==> buf@[j] == old(buf)@[j],
        decreases M - i,
    {
        buf[at + i] = field[i];
        i += 1;
    }
}

} // verus!
