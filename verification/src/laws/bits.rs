//! Laws on the bitmap and the sequence counter.

use vstd::prelude::*;

use crate::lockfree::bitmap::AtomicBitmap;
use crate::lockfree::sequence::AtomicSequence;

verus! {

/// A new bitmap has no bit set; nor has one that is cleared as a whole.
pub proof fn law_no_bits<const N: usize>(
    bitmap: AtomicBitmap<N>,
    by_default: AtomicBitmap<N>,
    cleared: &mut AtomicBitmap<N>,
)
    requires
        call_ensures(AtomicBitmap::<N>::new, (), bitmap),
        call_ensures(<AtomicBitmap::<N> as Default>::default, (), by_default),
        call_ensures(AtomicBitmap::<N>::clear_all, (cleared,), ()),
    ensures
        forall|i: int| !(#[trigger] bitmap@.contains(i)),
        forall|i: int| !(#[trigger] by_default@.contains(i)),
        forall|i: int| !(#[trigger] final(cleared)@.contains(i)),
{
}

/// Setting a bit sets it, if there is such a bit, and no other; the step that also tests tells
/// whether it was set before.
pub proof fn law_set_bit<const N: usize>(
    bitmap: &mut AtomicBitmap<N>,
    tested: &mut AtomicBitmap<N>,
    index: usize,
    was_set: bool,
)
    requires
        call_ensures(AtomicBitmap::<N>::set, (bitmap, index), ()),
        call_ensures(AtomicBitmap::<N>::test_and_set, (tested, index), was_set),
    ensures
        forall|i: int|
            #[trigger] final(bitmap)@.contains(i) <==> old(bitmap)@.contains(i) || (i == index && i
                < N * usize::BITS),
        forall|i: int|
            #[trigger] final(tested)@.contains(i) <==> old(tested)@.contains(i) || (i == index && i
                < N * usize::BITS),
        was_set == old(tested)@.contains(index as int),
{
}

/// Clearing a bit clears it and no other; the step that also tests tells whether it was set
/// before.
pub proof fn law_clear_bit<const N: usize>(
    bitmap: &mut AtomicBitmap<N>,
    tested: &mut AtomicBitmap<N>,
    index: usize,
    was_set: bool,
)
    requires
        call_ensures(AtomicBitmap::<N>::clear, (bitmap, index), ()),
        call_ensures(AtomicBitmap::<N>::test_and_clear, (tested, index), was_set),
    ensures
        forall|i: int|
            #[trigger] final(bitmap)@.contains(i) <==> old(bitmap)@.contains(i) && i != index,
        forall|i: int|
            #[trigger] final(tested)@.contains(i) <==> old(tested)@.contains(i) && i != index,
        was_set == old(tested)@.contains(index as int),
{
}

/// A bit is set just if testing it says so; the first set bit is set and no earlier one is; the
/// count is the number of set bits; the bitmap is empty just if no bit is set; and there are
/// `usize::BITS` bits to each of the `N` words.
pub proof fn law_bit_readings<const N: usize>(
    bitmap: &AtomicBitmap<N>,
    index: usize,
    is_set: bool,
    first: Option<usize>,
    count: usize,
    empty: bool,
    bits: usize,
)
    requires
        N * usize::BITS <= usize::MAX,
        call_ensures(AtomicBitmap::<N>::test, (bitmap, index), is_set),
        call_ensures(AtomicBitmap::<N>::find_first_set, (bitmap,), first),
        call_ensures(AtomicBitmap::<N>::count_ones, (bitmap,), count),
        call_ensures(AtomicBitmap::<N>::is_empty, (bitmap,), empty),
        call_ensures(AtomicBitmap::<N>::capacity, (), bits),
    ensures
        is_set == bitmap@.contains(index as int),
        first is None <==> empty,
        first matches Some(i) ==> {
            &&& bitmap@.contains(i as int)
            &&& forall|j: int| j < i ==> !(#[trigger] bitmap@.contains(j))
        },
        count == bitmap@.len(),
        empty <==> forall|i: int| !(#[trigger] bitmap@.contains(i)),
        bits == N * usize::BITS,
{
    if forall|i: int| !(#[trigger] bitmap@.contains(i)) {
        assert(bitmap@ =~= Set::<int>::empty());
    }
}

/// The bits of a word are those of the bitmap from the word's place on; there is nothing beyond
/// the last word.
pub proof fn law_words<const N: usize>(bitmap: &AtomicBitmap<N>, word_idx: usize, word: usize)
    requires
        call_ensures(AtomicBitmap::<N>::word, (bitmap, word_idx), word),
    ensures
        word_idx >= N ==> word == 0,
        forall|b: usize|
            #![trigger word & (1usize << b)]
            b < usize::BITS ==> (word & (1usize << b) != 0 <==> bitmap@.contains(
                word_idx * usize::BITS + b,
            )),
{
    assert forall|b: usize|
        #![trigger word & (1usize << b)]
        b < usize::BITS implies (word & (1usize << b) != 0 <==> bitmap@.contains(
        word_idx * usize::BITS + b,
    )) by {
        assert(crate::lockfree::bitmap::bit_set(word, b as int) == (word & (1usize << b) != 0));
    }
}

/// A sequence starts where it is told to, or at zero, where resetting puts it back; it reads as the
/// number it stands at.
pub proof fn law_sequence_start(
    fresh: AtomicSequence,
    by_default: AtomicSequence,
    initial: u64,
    started: AtomicSequence,
    reset: &mut AtomicSequence,
    sequence: &AtomicSequence,
    value: u64,
)
    requires
        call_ensures(AtomicSequence::new, (), fresh),
        call_ensures(<AtomicSequence as Default>::default, (), by_default),
        call_ensures(AtomicSequence::with_initial, (initial,), started),
        call_ensures(AtomicSequence::reset, (reset,), ()),
        call_ensures(AtomicSequence::get, (sequence,), value),
    ensures
        fresh@ == 0,
        by_default@ == 0,
        started@ == initial,
        final(reset)@ == 0,
        value == sequence@,
{
}

/// An increment hands out the next number, which is zero just after the last one. An exchange is
/// made just if the number is the expected one, and hands out the number there was.
pub proof fn law_sequence_steps(
    sequence: &mut AtomicSequence,
    value: u64,
    exchanged: &mut AtomicSequence,
    current: u64,
    new: u64,
    res: Result<u64, u64>,
)
    requires
        call_ensures(AtomicSequence::increment, (sequence,), value),
        call_ensures(AtomicSequence::compare_exchange, (exchanged, current, new), res),
    ensures
        final(sequence)@ == value,
        old(sequence)@ < u64::MAX ==> value == old(sequence)@ + 1,
        old(sequence)@ == u64::MAX ==> value == 0,
        res is Ok <==> old(exchanged)@ == current,
        res matches Ok(was) ==> was == current && final(exchanged)@ == new,
        res matches Err(was) ==> was == old(exchanged)@ && final(exchanged)@ == old(exchanged)@,
{
}

} // verus!
