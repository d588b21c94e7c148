//! A ring buffer between one producer and one consumer.
//!
//! The producer owns the write position and only ever reads the consumer's read position, and
//! the other way round. What a side has read of the other side's position may be out of date
//! by the time it acts on it: [`SpscRingBuffer::push_seeing`] and
//! [`SpscRingBuffer::pop_seeing`] are the two sides' steps on such a reading.

use vstd::prelude::*;

verus! {

/// `n` is a power of two.
pub open spec fn power_of_two(n: usize) -> bool {
    n > 0 && n & ((n - 1) as usize) == 0
}

/// The slot, among `n`, of the item `i` places behind the one at position `tail`.
pub open spec fn ring_slot(tail: usize, i: int, n: usize) -> int {
    (tail.wrapping_add(i as usize) & ((n - 1) as usize)) as int
}

/// A ring buffer of `N` slots, for one producer and one consumer.
///
/// The two positions count items and wrap around at the end of the `usize` range; an item's
/// slot is its position modulo `N`, which must be a power of two.
pub struct SpscRingBuffer<T: Copy, const N: usize> {
    /// The slots.
    buffer: [Option<T>; N],
    /// Write position (producer).
    head: usize,
    /// Read position (consumer).
    tail: usize,
}

impl<T: Copy, const N: usize> View for SpscRingBuffer<T, N> {
    type V = Seq<T>;

    /// The items in the buffer, oldest first.
    closed spec fn view(&self) -> Seq<T> {
        Seq::new(
            self.head.wrapping_sub(self.tail) as nat,
            |i: int| self.buffer@[ring_slot(self.tail, i, N)]->0,
        )
    }
}

impl<T: Copy, const N: usize> SpscRingBuffer<T, N> {
    /// The capacity is a power of two, no more than `N` items are in the buffer, and each of
    /// them stands in its slot.
    pub closed spec fn wf(&self) -> bool {
        &&& power_of_two(N)
        &&& self.head.wrapping_sub(self.tail) <= N
        &&& forall|i: int|
            0 <= i < self.head.wrapping_sub(self.tail) ==> (#[trigger] self.buffer@[ring_slot(
                self.tail,
                i,
                N,
            )]) is Some
    }

    /// The position the producer writes next.
    pub closed spec fn write_position(&self) -> usize {
        self.head
    }

    /// The position the consumer reads next.
    pub closed spec fn read_position(&self) -> usize {
        self.tail
    }

    /// How many items the consumer has taken since its position was `seen`.
    pub open spec fn taken_since(&self, seen: usize) -> nat {
        self.read_position().wrapping_sub(seen) as nat
    }

    /// `seen` is what the producer may still remember of the read position: the consumer has
    /// moved on since, but the producer has not, and the buffer held no more than `N` items
    /// then.
    pub open spec fn may_see_tail(&self, seen: usize) -> bool {
        self@.len() + self.taken_since(seen) <= N
    }

    /// How many of the items now in the buffer were there when the write position was `seen`.
    pub open spec fn visible_at(&self, seen: usize) -> nat {
        seen.wrapping_sub(self.read_position()) as nat
    }

    /// `seen` is what the consumer may still remember of the write position: the producer has
    /// moved on since, but the consumer has not.
    pub open spec fn may_see_head(&self, seen: usize) -> bool {
        self.visible_at(seen) <= self@.len()
    }

    /// Create a new empty ring buffer. `N` has to be a power of two.
    pub fn new() -> (ring: Self)
        requires
            power_of_two(N),
        ensures
            ring.wf(),
            ring@ == Seq::<T>::empty(),
            ring.write_position() == 0,
            ring.read_position() == 0,
    {
        let ring = SpscRingBuffer { buffer: [None; N], head: 0, tail: 0 };
        assert(ring@ =~= Seq::<T>::empty());
        ring
    }

    /// The producer's step, on a read position that it loaded earlier.
    ///
    /// The item goes in if, by that reading, there is room for it. A reading that is out of
    /// date makes the buffer look fuller than it is, so the step may refuse an item that would
    /// fit, but it never overwrites one that has not been read.
    pub fn push_seeing(&mut self, seen_tail: usize, item: T) -> (res: Result<(), T>)
        requires
            old(self).wf(),
            old(self).may_see_tail(seen_tail),
        ensures
            final(self).wf(),
            final(self).read_position() == old(self).read_position(),
            old(self)@.len() + old(self).taken_since(seen_tail) < N ==> {
                &&& res == Ok::<(), T>(())
                &&& final(self)@ == old(self)@.push(item)
                &&& final(self).write_position() == old(self).write_position().wrapping_add(1)
            },
            old(self)@.len() + old(self).taken_since(seen_tail) == N ==> {
                &&& res == Err::<(), T>(item)
                &&& *final(self) == *old(self)
            },
    {
        let head = self.head;
        if head.wrapping_sub(seen_tail) >= N {
            return Err(item);
        }
        let ghost before = *self;
        let ghost count = head.wrapping_sub(self.tail);
        let slot = head & (N - 1);
        proof {
            lemma_slot_bound(head, N);
            assert(self.tail.wrapping_add(count) == head);
        }
        self.buffer[slot] = Some(item);
        self.head = head.wrapping_add(1);
        proof {
            assert(self.head.wrapping_sub(self.tail) == count + 1);
            assert forall|i: int| 0 <= i < count implies (#[trigger] self.buffer@[ring_slot(
                self.tail,
                i,
                N,
            )]) == before.buffer@[ring_slot(self.tail, i, N)] by {
                lemma_slot_bound(self.tail.wrapping_add(i as usize), N);
                lemma_slots_distinct(self.tail, i as usize, count, N);
            }
            assert(ring_slot(self.tail, count as int, N) == slot);
            assert(self@ =~= before@.push(item));
        }
        Ok(())
    }

    /// Try to push an item (producer side).
    ///
    /// Returns `Ok(())` if successful, `Err(item)` if the buffer is full.
    pub fn push(&mut self, item: T) -> (res: Result<(), T>)
        requires
            old(self).wf(),
        ensures
            final(self).wf(),
            old(self)@.len() < N ==> {
                &&& res == Ok::<(), T>(())
                &&& final(self)@ == old(self)@.push(item)
                &&& final(self).write_position() == old(self).write_position().wrapping_add(1)
                &&& final(self).read_position() == old(self).read_position()
            },
            old(self)@.len() >= N ==> {
                &&& res == Err::<(), T>(item)
                &&& *final(self) == *old(self)
            },
    {
        let tail = self.tail;
        self.push_seeing(tail, item)
    }

    /// The consumer's step, on a write position that it loaded earlier.
    ///
    /// The oldest item comes out if it was there by that reading. A reading that is out of date
    /// makes the buffer look emptier than it is, so the step may find nothing although
    /// something has arrived, but what it hands out is always the oldest item, whole.
    pub fn pop_seeing(&mut self, seen_head: usize) -> (res: Option<T>)
        requires
            old(self).wf(),
            old(self).may_see_head(seen_head),
        ensures
            final(self).wf(),
            final(self).write_position() == old(self).write_position(),
            old(self).visible_at(seen_head) > 0 ==> {
                &&& res == Some(old(self)@[0])
                &&& final(self)@ == old(self)@.skip(1)
                &&& final(self).read_position() == old(self).read_position().wrapping_add(1)
            },
            old(self).visible_at(seen_head) == 0 ==> {
                &&& res == None::<T>
                &&& *final(self) == *old(self)
            },
    {
        let tail = self.tail;
        if tail == seen_head {
            return None;
        }
        let ghost before = *self;
        let ghost count = self.head.wrapping_sub(tail);
        let slot = tail & (N - 1);
        proof {
            lemma_slot_bound(tail, N);
            assert(tail.wrapping_add(0) == tail);
            assert(ring_slot(tail, 0, N) == slot);
            assert(self.buffer@[ring_slot(tail, 0, N)] is Some);
        }
        let item = self.buffer[slot];
        self.tail = tail.wrapping_add(1);
        proof {
            assert(self.head.wrapping_sub(self.tail) == count - 1);
            assert forall|i: int| 0 <= i < count - 1 implies #[trigger] ring_slot(self.tail, i, N)
                == ring_slot(tail, i + 1, N) by {
                assert(self.tail.wrapping_add(i as usize) == tail.wrapping_add((i + 1) as usize));
            }
            assert(self@ =~= before@.skip(1));
        }
        item
    }

    /// Try to pop an item (consumer side).
    ///
    /// Returns `Some(item)` if available, `None` if the buffer is empty.
    pub fn pop(&mut self) -> (res: Option<T>)
        requires
            old(self).wf(),
        ensures
            final(self).wf(),
            old(self)@.len() > 0 ==> {
                &&& res == Some(old(self)@[0])
                &&& final(self)@ == old(self)@.skip(1)
                &&& final(self).read_position() == old(self).read_position().wrapping_add(1)
                &&& final(self).write_position() == old(self).write_position()
            },
            old(self)@.len() == 0 ==> {
                &&& res == None::<T>
                &&& *final(self) == *old(self)
            },
    {
        let head = self.head;
        self.pop_seeing(head)
    }

    /// Check if the buffer is empty.
    pub fn is_empty(&self) -> (empty: bool)
        ensures
            empty == (self@.len() == 0),
    {
        self.tail == self.head
    }

    /// Check if the buffer is full.
    pub fn is_full(&self) -> (full: bool)
        ensures
            full == (self@.len() >= N),
    {
        self.head.wrapping_sub(self.tail) >= N
    }

    /// Get the number of items in the buffer.
    pub fn len(&self) -> (len: usize)
        ensures
            len == self@.len(),
    {
        self.head.wrapping_sub(self.tail)
    }

    /// Get the capacity of the buffer.
    pub fn capacity(&self) -> (capacity: usize)
        ensures
            capacity == N,
    {
        N
    }

    /// Clear all items from the buffer (consumer side only).
    pub fn clear(&mut self)
        requires
            old(self).wf(),
        ensures
            final(self).wf(),
            final(self)@ == Seq::<T>::empty(),
            final(self).write_position() == old(self).write_position(),
    {
        while !self.is_empty()
            invariant
                self.wf(),
                self.write_position() == old(self).write_position(),
            decreases self@.len(),
        {
            let head = self.head;
            let _ = self.pop_seeing(head);
        }
        assert(self@ =~= Seq::<T>::empty());
    }
}

impl<T: Copy, const N: usize> Default for SpscRingBuffer<T, N> {
    /// An empty ring buffer, if `N` is a power of two.
    fn default() -> (ring: Self)
        ensures
            power_of_two(N) ==> {
                &&& ring.wf()
                &&& ring@ == Seq::<T>::empty()
                &&& ring.write_position() == 0
                &&& ring.read_position() == 0
            },
    {
        let ring = SpscRingBuffer { buffer: [None; N], head: 0, tail: 0 };
        assert(ring@ =~= Seq::<T>::empty());
        ring
    }
}

/// What the buffer holds after `items` were pushed one after the other, none of them refused.
pub open spec fn after_pushes<T>(held: Seq<T>, items: Seq<T>) -> Seq<T>
    decreases items.len(),
{
    if items.len() == 0 {
        held
    } else {
        after_pushes(held, items.drop_last()).push(items.last())
    }
}

/// What `count` pops in a row hand out, none of them finding the buffer empty.
pub open spec fn popped<T>(held: Seq<T>, count: nat) -> Seq<T>
    decreases count,
{
    if count == 0 {
        Seq::empty()
    } else {
        seq![held[0]] + popped(held.skip(1), (count - 1) as nat)
    }
}

/// What one of the two sides does to the buffer.
pub enum RingCall<T> {
    /// The producer pushes an item.
    Push(T),
    /// The consumer pops.
    Pop,
    /// Either side acts on a reading so far out of date that it finds no room, or nothing.
    Passed,
}

/// What has gone through a buffer.
pub struct RingHistory<T> {
    /// The items that were held at first, followed by those accepted since.
    pub accepted: Seq<T>,
    /// The items handed out.
    pub popped: Seq<T>,
    /// The items in the buffer.
    pub held: Seq<T>,
}

impl<T> RingHistory<T> {
    /// A buffer that holds `held`, before any call.
    pub open spec fn starting_with(held: Seq<T>) -> Self {
        RingHistory { accepted: held, popped: Seq::empty(), held }
    }

    /// The history after one more call on a buffer of `capacity` slots: an item is accepted just
    /// if there is room for it, and the oldest one is handed out if there is any.
    pub open spec fn and_then(self, call: RingCall<T>, capacity: usize) -> Self {
        match call {
            RingCall::Push(item) => if self.held.len() < capacity {
                RingHistory {
                    accepted: self.accepted.push(item),
                    held: self.held.push(item),
                    ..self
                }
            } else {
                self
            },
            RingCall::Pop => if self.held.len() > 0 {
                RingHistory {
                    popped: self.popped.push(self.held[0]),
                    held: self.held.skip(1),
                    ..self
                }
            } else {
                self
            },
            RingCall::Passed => self,
        }
    }

    /// The history after `calls`, one after the other.
    pub open spec fn after(self, calls: Seq<RingCall<T>>, capacity: usize) -> Self
        decreases calls.len(),
    {
        if calls.len() == 0 {
            self
        } else {
            self.after(calls.drop_last(), capacity).and_then(calls.last(), capacity)
        }
    }
}

impl<T: Copy, const N: usize> SpscRingBuffer<T, N> {
    /// No more than `N` items are ever in the buffer, and the positions tell how many.
    pub proof fn law_bounded(&self)
        requires
            self.wf(),
        ensures
            self@.len() <= N,
            self@.len() == self.write_position().wrapping_sub(self.read_position()),
    {
    }

    /// First in, first out: what was in the buffer, and then what was pushed, comes out in that
    /// order.
    pub proof fn law_first_in_first_out(&self, items: Seq<T>)
        requires
            self.wf(),
            self@.len() + items.len() <= N,
        ensures
            popped(after_pushes(self@, items), self@.len() + items.len()) == self@ + items,
    {
        lemma_after_pushes(self@, items);
        lemma_popped(self@ + items);
    }

    /// First in, first out, in any interleaving of the two sides: after any calls, the items that
    /// were held at first and then those accepted are the items handed out followed by those
    /// still held, all in the same order. On a buffer that was empty, what is accepted is what
    /// is handed out, and then what is held.
    pub proof fn law_nothing_is_lost_or_reordered(&self, calls: Seq<RingCall<T>>)
        requires
            self.wf(),
        ensures
            ({
                let history = RingHistory::starting_with(self@).after(calls, N);
                &&& history.accepted == history.popped + history.held
                &&& history.held.len() <= N
                &&& self@.is_prefix_of(history.accepted)
            }),
        decreases calls.len(),
    {
        let start = RingHistory::starting_with(self@);
        if calls.len() == 0 {
            assert(start.accepted =~= start.popped + start.held);
        } else {
            self.law_nothing_is_lost_or_reordered(calls.drop_last());
            let before = start.after(calls.drop_last(), N);
            let history = before.and_then(calls.last(), N);
            assert(history.accepted =~= history.popped + history.held);
        }
    }

    /// A position that has just been read is a reading that either side may act on.
    pub proof fn law_fresh_reading_is_usable(&self)
        requires
            self.wf(),
        ensures
            self.may_see_tail(self.read_position()),
            self.may_see_head(self.write_position()),
    {
    }

    /// What the producer has read of the consumer's position stays usable while the consumer
    /// pops items: the two sides' steps may interleave in any order.
    pub proof fn law_pop_keeps_producer_reading(&self, after: Self, seen_tail: usize)
        requires
            self.wf(),
            self@.len() > 0,
            self.may_see_tail(seen_tail),
            after@ == self@.skip(1),
            after.read_position() == self.read_position().wrapping_add(1),
        ensures
            after.may_see_tail(seen_tail),
    {
    }

    /// What the consumer has read of the producer's position stays usable while the producer
    /// pushes items.
    pub proof fn law_push_keeps_consumer_reading(&self, after: Self, seen_head: usize, item: T)
        requires
            self.wf(),
            self@.len() < N,
            self.may_see_head(seen_head),
            after@ == self@.push(item),
            after.read_position() == self.read_position(),
        ensures
            after.may_see_head(seen_head),
            after.visible_at(seen_head) == self.visible_at(seen_head),
    {
    }
}

proof fn lemma_after_pushes<T>(held: Seq<T>, items: Seq<T>)
    ensures
        after_pushes(held, items) == held + items,
    decreases items.len(),
{
    if items.len() == 0 {
        assert(held + items =~= held);
    } else {
        lemma_after_pushes(held, items.drop_last());
        assert((held + items.drop_last()).push(items.last()) =~= held + items);
    }
}

proof fn lemma_popped<T>(held: Seq<T>)
    ensures
        popped(held, held.len()) == held,
    decreases held.len(),
{
    if held.len() > 0 {
        lemma_popped(held.skip(1));
        assert(seq![held[0]] + held.skip(1) =~= held);
    } else {
        assert(popped(held, 0) =~= held);
    }
}

/// `usize::MAX` is the word of all ones.
proof fn lemma_all_ones()
    ensures
        usize::MAX == !0usize,
{
    assert(usize::BITS == 64 ==> !0usize == 0xffff_ffff_ffff_ffff) by (bit_vector);
    assert(usize::BITS == 32 ==> !0usize == 0xffff_ffff) by (bit_vector);
}

/// A masked position is a slot number.
proof fn lemma_slot_bound(x: usize, n: usize)
    requires
        n > 0,
    ensures
        x & ((n - 1) as usize) < n,
{
    let mask = (n - 1) as usize;
    assert(x & mask <= mask) by (bit_vector);
}

/// Two items less than a full turn apart never share a slot.
proof fn lemma_slots_distinct(tail: usize, i: usize, j: usize, n: usize)
    requires
        power_of_two(n),
        i < n,
        j < n,
        i != j,
    ensures
        ring_slot(tail, i as int, n) != ring_slot(tail, j as int, n),
{
    let mask = (n - 1) as usize;
    let top = usize::MAX;
    let a = tail.wrapping_add(i);
    let b = tail.wrapping_add(j);
    lemma_all_ones();
    assert(a & mask != b & mask) by (bit_vector)
        requires
            n > 0,
            n & mask == 0,
            mask == n - 1,
            i < n,
            j < n,
            i != j,
            top == !0usize,
            a == (if tail + i > top { tail + i - (top + 1) } else { tail + i }),
            b == (if tail + j > top { tail + j - (top + 1) } else { tail + j }),
    ;
}

} // verus!
