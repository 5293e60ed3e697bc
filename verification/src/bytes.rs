//! Small byte-array helpers used by the fixed-size wire representations.
use vstd::prelude::*;

verus! {

/// Copies a slice of exactly `N` bytes into an array.
pub fn array_from_slice<const N: usize>(v: &[u8]) -> (res: [u8; N])
    requires
        v@.len() == N,
    ensures
        res@ == v@,
{
    let mut out = [0u8; N];
    let mut i: usize = 0;
    while i < N
        invariant
            v@.len() == N,
            i <= N,
            out@.len() == N,
            forall|j: int| 0 <= j < i ==> out@[j] == v@[j],
        decreases N - i,
    {
        out[i] = v[i];
        i = i + 1;
    }
    assert(out@ =~= v@);
    out
}

/// Copies `src` into `dst` starting at `offset`.
pub fn copy_into<const N: usize>(dst: &mut [u8; N], offset: usize, src: &[u8])
    requires
        offset + src@.len() <= N,
    ensures
        final(dst)@ == old(dst)@.subrange(0, offset as int) + src@ + old(dst)@.subrange(
            offset + src@.len(),
            N as int,
        ),
{
    let ghost start = dst@;
    let mut i: usize = 0;
    while i < src.len()
        invariant
            offset + src@.len() <= N,
            i <= src@.len(),
            dst@.len() == N,
            forall|j: int| 0 <= j < offset ==> dst@[j] == start[j],
            forall|j: int| offset + src@.len() <= j < N ==> dst@[j] == start[j],
            forall|j: int| 0 <= j < i ==> dst@[offset + j] == src@[j],
            forall|j: int| offset + i <= j < offset + src@.len() ==> dst@[j] == start[j],
        decreases src@.len() - i,
    {
        dst[offset + i] = src[i];
        i = i + 1;
    }
    assert(dst@ =~= start.subrange(0, offset as int) + src@ + start.subrange(
        offset + src@.len(),
        N as int,
    ));
}

/// Whether two byte slices hold the same bytes.
pub fn bytes_equal(a: &[u8], b: &[u8]) -> (res: bool)
    ensures
        res == (a@ == b@),
{
    if a.len() != b.len() {
        return false;
    }
    let mut i: usize = 0;
    while i < a.len()
        invariant
            a@.len() == b@.len(),
            i <= a@.len(),
            forall|j: int| 0 <= j < i ==> a@[j] == b@[j],
        decreases a@.len() - i,
    {
        if a[i] != b[i] {
            return false;
        }
        i = i + 1;
    }
    assert(a@ =~= b@);
    true
}

} // verus!
