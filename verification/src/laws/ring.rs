//! Laws on the ring buffer.

use vstd::prelude::*;

use crate::lockfree::ring::SpscRingBuffer;

verus! {

/// A new ring buffer, of a capacity that is a power of two, is empty.
pub proof fn law_new_ring<T: Copy, const N: usize>(
    ring: SpscRingBuffer<T, N>,
    by_default: SpscRingBuffer<T, N>,
)
    requires
        N > 0,
        N & ((N - 1) as usize) == 0,
        call_ensures(SpscRingBuffer::<T, N>::new, (), ring),
        call_ensures(<SpscRingBuffer::<T, N> as Default>::default, (), by_default),
    ensures
        ring.wf(),
        ring@.len() == 0,
        by_default.wf(),
        by_default@.len() == 0,
{
}

/// An item is accepted just while the buffer holds fewer than `N` of them, and goes behind the
/// others; one that is refused comes back, and the buffer stays.
pub proof fn law_push<T: Copy, const N: usize>(
    ring: &mut SpscRingBuffer<T, N>,
    item: T,
    res: Result<(), T>,
)
    requires
        old(ring).wf(),
        call_ensures(SpscRingBuffer::<T, N>::push, (ring, item), res),
    ensures
        final(ring).wf(),
        old(ring)@.len() <= N,
        res is Ok <==> old(ring)@.len() < N,
        res is Ok ==> {
            &&& final(ring)@.len() == old(ring)@.len() + 1
            &&& final(ring)@.last() == item
            &&& forall|i: int|
                0 <= i < old(ring)@.len() ==> #[trigger] final(ring)@[i] == old(ring)@[i]
        },
        res matches Err(back) ==> back == item && final(ring)@ == old(ring)@,
{
    old(ring).law_bounded();
}

/// The oldest item comes out, if there is any, and the others stay in order.
pub proof fn law_pop<T: Copy, const N: usize>(
    ring: &mut SpscRingBuffer<T, N>,
    res: Option<T>,
)
    requires
        old(ring).wf(),
        call_ensures(SpscRingBuffer::<T, N>::pop, (ring,), res),
    ensures
        final(ring).wf(),
        res is Some <==> old(ring)@.len() > 0,
        res matches Some(item) ==> {
            &&& item == old(ring)@[0]
            &&& final(ring)@.len() == old(ring)@.len() - 1
            &&& forall|i: int|
                0 <= i < final(ring)@.len() ==> #[trigger] final(ring)@[i] == old(ring)@[i + 1]
        },
        res is None ==> final(ring)@ == old(ring)@,
{
}

/// A producer that goes by the read position of `taken` pops ago is refused just if the items held
/// now and those popped since fill the buffer; whatever it does, no item that is held is lost.
pub proof fn law_push_on_old_reading<T: Copy, const N: usize>(
    ring: &mut SpscRingBuffer<T, N>,
    taken: nat,
    seen_tail: usize,
    item: T,
    res: Result<(), T>,
)
    requires
        old(ring).wf(),
        old(ring)@.len() + taken <= N,
        seen_tail == old(ring).read_position().wrapping_sub(taken as usize),
        call_ensures(SpscRingBuffer::<T, N>::push_seeing, (ring, seen_tail, item), res),
    ensures
        final(ring).wf(),
        final(ring).read_position() == old(ring).read_position(),
        res is Ok <==> old(ring)@.len() + taken < N,
        res is Ok ==> final(ring)@ == old(ring)@.push(item),
        res matches Err(back) ==> back == item && final(ring)@ == old(ring)@,
{
    assert(old(ring).taken_since(seen_tail) == taken);
}

/// A consumer that goes by the write position of when only the oldest `visible` items were there
/// gets the oldest item just if `visible` is not zero.
pub proof fn law_pop_on_old_reading<T: Copy, const N: usize>(
    ring: &mut SpscRingBuffer<T, N>,
    visible: nat,
    seen_head: usize,
    res: Option<T>,
)
    requires
        old(ring).wf(),
        visible <= old(ring)@.len(),
        seen_head == old(ring).read_position().wrapping_add(visible as usize),
        call_ensures(SpscRingBuffer::<T, N>::pop_seeing, (ring, seen_head), res),
    ensures
        final(ring).wf(),
        final(ring).write_position() == old(ring).write_position(),
        res is Some <==> visible > 0,
        res matches Some(item) ==> item == old(ring)@[0] && final(ring)@ == old(ring)@.skip(1),
        res is None ==> final(ring)@ == old(ring)@,
{
    old(ring).law_bounded();
    assert(old(ring).visible_at(seen_head) == visible);
}

/// The length is the number of items held, the capacity is `N`, and the buffer is empty or full
/// just when the length is zero or the capacity. Clearing it leaves nothing.
pub proof fn law_ring_readings<T: Copy, const N: usize>(
    ring: &SpscRingBuffer<T, N>,
    len: usize,
    capacity: usize,
    empty: bool,
    full: bool,
    cleared: &mut SpscRingBuffer<T, N>,
)
    requires
        ring.wf(),
        call_ensures(SpscRingBuffer::<T, N>::len, (ring,), len),
        call_ensures(SpscRingBuffer::<T, N>::capacity, (ring,), capacity),
        call_ensures(SpscRingBuffer::<T, N>::is_empty, (ring,), empty),
        call_ensures(SpscRingBuffer::<T, N>::is_full, (ring,), full),
        old(cleared).wf(),
        call_ensures(SpscRingBuffer::<T, N>::clear, (cleared,), ()),
    ensures
        len == ring@.len(),
        capacity == N,
        empty <==> len == 0,
        full <==> len == N,
        final(cleared).wf(),
        final(cleared)@.len() == 0,
{
    ring.law_bounded();
}

} // verus!
