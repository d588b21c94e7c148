//! A counter for sequence and generation numbers.

use vstd::prelude::*;

verus! {

/// A counter whose overflow shows: the first number after it is zero.
///
/// Useful for sequence numbers and generation counters.
pub struct AtomicSequence {
    value: u64,
}

impl View for AtomicSequence {
    type V = u64;

    /// The current number.
    closed spec fn view(&self) -> u64 {
        self.value
    }
}

impl AtomicSequence {
    /// Create a new sequence starting at 0.
    pub fn new() -> (sequence: Self)
        ensures
            sequence@ == 0,
    {
        AtomicSequence { value: 0 }
    }

    /// Create a new sequence with an initial value.
    pub fn with_initial(initial: u64) -> (sequence: Self)
        ensures
            sequence@ == initial,
    {
        AtomicSequence { value: initial }
    }

    /// Get the current value.
    pub fn get(&self) -> (value: u64)
        ensures
            value == self@,
    {
        self.value
    }

    /// Increment and return the new value, which is zero just when the counter has overflowed.
    pub fn increment(&mut self) -> (value: u64)
        ensures
            value == final(self)@,
            value == old(self)@.wrapping_add(1),
            value == 0 <==> old(self)@ == u64::MAX,
    {
        self.value = self.value.wrapping_add(1);
        self.value
    }

    /// Compare and swap.
    ///
    /// Where the value is `current` it becomes `new` and `current` comes back as `Ok`;
    /// otherwise nothing changes and the value comes back as `Err`.
    pub fn compare_exchange(&mut self, current: u64, new: u64) -> (res: Result<u64, u64>)
        ensures
            old(self)@ == current ==> res == Ok::<u64, u64>(current) && final(self)@ == new,
            old(self)@ != current ==> res == Err::<u64, u64>(old(self)@) && final(self)@ == old(
                self,
            )@,
    {
        let value = self.value;
        if value == current {
            self.value = new;
            Ok(value)
        } else {
            Err(value)
        }
    }

    /// Reset to zero.
    pub fn reset(&mut self)
        ensures
            final(self)@ == 0,
    {
        self.value = 0;
    }
}

impl Default for AtomicSequence {
    fn default() -> (sequence: Self)
        ensures
            sequence@ == 0,
    {
        Self::new()
    }
}

/// The number a sequence stands at after `steps` increments.
pub open spec fn after_increments(start: u64, steps: nat) -> u64
    decreases steps,
{
    if steps == 0 {
        start
    } else {
        after_increments(start, (steps - 1) as nat).wrapping_add(1)
    }
}

/// Increments count up by one, modulo the `u64` range.
pub proof fn law_sequence_counts(start: u64, steps: nat)
    ensures
        after_increments(start, steps) == (start + steps) % (u64::MAX + 1),
    decreases steps,
{
    if steps > 0 {
        law_sequence_counts(start, (steps - 1) as nat);
    }
}

/// A sequence hands out no number twice within `u64::MAX` increments.
pub proof fn law_sequence_numbers_differ(start: u64, earlier: nat, later: nat)
    requires
        earlier < later,
        later - earlier <= u64::MAX,
    ensures
        after_increments(start, earlier) != after_increments(start, later),
{
    law_sequence_counts(start, earlier);
    law_sequence_counts(start, later);
    let range = (u64::MAX + 1) as int;
    let a = start + earlier;
    let b = start + later;
    assert(a == (a / range) * range + a % range);
    assert(b == (b / range) * range + b % range);
}

} // verus!
