//! Caller-side steps of reading and writing engine buffers.
//!
//! Buffer memory belongs to the engine and is lent to the caller only for
//! the duration of one callback; these functions do the caller's part of
//! that work on bytes already in hand.
use vstd::prelude::*;

verus! {

/// Copies a view delivered by a buffer read into the front of `buf`,
/// leaving the rest of `buf` as it was, and returns how many bytes came.
///
/// The engine yields at most the length that was asked for, which is the
/// length of `buf`.
pub fn copy_view_into(buf: &mut [u8], data: &[u8]) -> (amt: usize)
    requires
        data@.len() <= old(buf)@.len(),
    ensures
        amt == data@.len(),
        final(buf)@ == data@ + old(buf)@.subrange(amt as int, old(buf)@.len() as int),
{
    let amt = data.len();
    let mut i: usize = 0;
    while i < amt
        invariant
            amt == data@.len(),
            amt <= old(buf)@.len(),
            i <= amt,
            buf@.len() == old(buf)@.len(),
            buf@.subrange(0, i as int) == data@.subrange(0, i as int),
            buf@.subrange(i as int, buf@.len() as int) == old(buf)@.subrange(
                i as int,
                old(buf)@.len() as int,
            ),
        decreases amt - i,
    {
        let ghost before = buf@;
        buf[i] = data[i];
        assert(buf@.subrange(i + 1, buf@.len() as int) =~= before.subrange(
            i + 1,
            before.len() as int,
        ));
        assert(before.subrange(i + 1, before.len() as int) =~= before.subrange(
            i as int,
            before.len() as int,
        ).drop_first());
        assert(old(buf)@.subrange(i + 1, old(buf)@.len() as int) =~= old(buf)@.subrange(
            i as int,
            old(buf)@.len() as int,
        ).drop_first());
        assert(buf@.subrange(0, i + 1) =~= buf@.subrange(0, i as int).push(data@[i as int]));
        assert(data@.subrange(0, i + 1) =~= data@.subrange(0, i as int).push(data@[i as int]));
        i = i + 1;
    }
    assert(buf@ =~= buf@.subrange(0, amt as int) + buf@.subrange(amt as int, buf@.len() as int));
    assert(data@.subrange(0, amt as int) =~= data@);
    amt
}

/// The sum of some lengths.
pub open spec fn total(lens: Seq<usize>) -> int
    decreases lens.len(),
{
    if lens.len() == 0 {
        0
    } else {
        total(lens.drop_last()) + lens.last()
    }
}

proof fn lemma_total_prefix(lens: Seq<usize>, i: int)
    requires
        0 <= i <= lens.len(),
    ensures
        total(lens.subrange(0, i)) <= total(lens),
    decreases lens.len() - i,
{
    if i < lens.len() {
        lemma_total_prefix(lens, i + 1);
        assert(lens.subrange(0, i + 1).drop_last() =~= lens.subrange(0, i));
    } else {
        assert(lens.subrange(0, i) =~= lens);
    }
}

/// The total length of a vectored write, which is reserved in one step
/// before the parts are appended; `None` if it does not fit in a word.
pub fn vectored_len(lens: &[usize]) -> (r: Option<usize>)
    ensures
        total(lens@) <= usize::MAX ==> r == Some(total(lens@) as usize),
        total(lens@) > usize::MAX ==> r is None,
{
    let mut sum: usize = 0;
    let mut i: usize = 0;
    while i < lens.len()
        invariant
            i <= lens@.len(),
            sum == total(lens@.subrange(0, i as int)),
        decreases lens@.len() - i,
    {
        assert(lens@.subrange(0, i + 1).drop_last() =~= lens@.subrange(0, i as int));
        if lens[i] > usize::MAX - sum {
            proof {
                lemma_total_prefix(lens@, i + 1);
            }
            return None;
        }
        sum = sum + lens[i];
        i = i + 1;
    }
    assert(lens@.subrange(0, i as int) =~= lens@);
    Some(sum)
}

} // verus!
