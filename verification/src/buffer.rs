//! Moving octets between the engine's buffers and the caller's.

use vstd::prelude::*;

verus! {

/// The smaller of two lengths.
pub open spec fn shorter(a: int, b: int) -> int {
    if a <= b {
        a
    } else {
        b
    }
}

/// What `dst` holds once the first `n` octets of `src` are written over its
/// head.
pub open spec fn overwritten(dst: Seq<u8>, src: Seq<u8>, n: int) -> Seq<u8> {
    src.subrange(0, n) + dst.subrange(n, dst.len() as int)
}

/// The octets of `data` from index `from` up to `to`; none where these are not
/// in order within `data`.
pub open spec fn span(data: Seq<u8>, from: int, to: int) -> Seq<u8> {
    if 0 <= from <= to <= data.len() {
        data.subrange(from, to)
    } else {
        Seq::empty()
    }
}

/// Copies as many leading octets of `src` as fit into `dst`, and returns their
/// number twice: as the amount taken from `src` and as the amount now in `dst`.
pub fn take_prefix(dst: &mut [u8], src: &[u8]) -> (taken: (usize, usize))
    ensures
        taken.0 == shorter(old(dst)@.len() as int, src@.len() as int),
        taken.1 == taken.0,
        final(dst)@ == overwritten(old(dst)@, src@, taken.0 as int),
{
    let len: usize = if dst.len() <= src.len() {
        dst.len()
    } else {
        src.len()
    };
    let mut i: usize = 0;
    while i < len
        invariant
            i <= len,
            len <= src@.len(),
            len <= dst@.len(),
            dst@.len() == old(dst)@.len(),
            dst@ == overwritten(old(dst)@, src@, i as int),
        decreases len - i,
    {
        dst[i] = src[i];
        i += 1;
    }
    (len, len)
}

} // verus!
