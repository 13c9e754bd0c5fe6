//! Block operations on the raw storage of a container: copying a slice into
//! place, and moving a range of slots onto another range that may overlap it.

use vstd::prelude::*;

verus! {

/// What `buf` holds after the `count` slots from `src` on were moved to the
/// slots from `dst` on: every slot outside the destination is as before.
pub open spec fn moved<T>(buf: Seq<T>, src: int, dst: int, count: int) -> Seq<T> {
    buf.take(dst) + buf.subrange(src, src + count) + buf.skip(dst + count)
}

/// What `buf` holds after `src` was written over the slots from `at` on.
pub open spec fn overwritten<T>(buf: Seq<T>, at: int, src: Seq<T>) -> Seq<T> {
    buf.take(at) + src + buf.skip(at + src.len())
}

/// Writes `src` over the slots of `buf` that start at `at`.
pub fn copy_into<T: Copy, const L: usize>(buf: &mut [T; L], at: usize, src: &[T])
    requires
        at + src@.len() <= L,
    ensures
        final(buf)@ == overwritten(old(buf)@, at as int, src@),
{
    let n = src.len();
    let mut i: usize = 0;
    while i < n
        invariant
            n == src@.len(),
            at + n <= L,
            i <= n,
            buf@ == overwritten(old(buf)@, at as int, src@.take(i as int)),
        decreases n - i,
    {
        buf[at + i] = src[i];
        i += 1;
    }
}

/// Moves the `count` slots that start at `src` onto the slots that start at
/// `dst`. The two ranges may overlap: the slots are copied in the direction in
/// which no slot is overwritten before it has been read.
pub fn move_within<T: Copy, const L: usize>(buf: &mut [T; L], src: usize, dst: usize, count: usize)
    requires
        src + count <= L,
        dst + count <= L,
    ensures
        final(buf)@ == moved(old(buf)@, src as int, dst as int, count as int),
{
    if dst <= src {
        let mut i: usize = 0;
        while i < count
            invariant
                dst <= src,
                src + count <= L,
                i <= count,
                buf@ =~= moved(old(buf)@, src as int, dst as int, i as int),
                forall|k: int| dst + i <= k < L ==> buf@[k] == old(buf)@[k],
            decreases count - i,
        {
            buf[dst + i] = buf[src + i];
            i += 1;
        }
    } else {
        let mut i: usize = count;
        while i > 0
            invariant
                src < dst,
                dst + count <= L,
                i <= count,
                forall|k: int| 0 <= k < dst + i ==> buf@[k] == old(buf)@[k],
                forall|k: int| dst + i <= k < dst + count ==> buf@[k] == old(buf)@[k - dst + src],
                forall|k: int| dst + count <= k < L ==> buf@[k] == old(buf)@[k],
            decreases i,
        {
            i -= 1;
            buf[dst + i] = buf[src + i];
        }
    }
}

} // verus!
