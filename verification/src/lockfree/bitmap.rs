//! A bitmap of a fixed number of words.

use vstd::prelude::*;
use vstd::std_specs::bits::u64_trailing_zeros;

verus! {

/// Bit `b` of `word` is set.
pub open spec fn bit_set(word: usize, b: int) -> bool {
    word & (1usize << (b as usize)) != 0
}

/// A bitmap of `N` words, for tracking which CPUs have pending events and the like.
///
/// Each word holds `usize::BITS` bits; bit `i` is bit `i % usize::BITS` of word
/// `i / usize::BITS`.
pub struct AtomicBitmap<const N: usize> {
    /// The words.
    words: [usize; N],
}

impl<const N: usize> View for AtomicBitmap<N> {
    type V = Set<int>;

    /// The indices of the bits that are set.
    closed spec fn view(&self) -> Set<int> {
        Set::new(
            |i: int|
                0 <= i < N * usize::BITS && bit_set(
                    self.words@[i / (usize::BITS as int)],
                    i % (usize::BITS as int),
                ),
        )
    }
}

impl<const N: usize> AtomicBitmap<N> {
    /// Every bit of the bitmap has a `usize` index.
    pub open spec fn indexable() -> bool {
        N * usize::BITS <= usize::MAX
    }

    /// Total capacity in bits.
    pub fn capacity() -> (bits: usize)
        requires
            Self::indexable(),
        ensures
            bits == N * usize::BITS,
    {
        N * (usize::BITS as usize)
    }

    /// Create a new empty bitmap.
    pub fn new() -> (bitmap: Self)
        ensures
            bitmap@ == Set::<int>::empty(),
    {
        let bitmap = AtomicBitmap { words: [0; N] };
        proof {
            assert forall|i: int| !(#[trigger] bitmap@.contains(i)) by {
                lemma_index(i, N);
                lemma_zero_word(i % (usize::BITS as int));
            }
            assert(bitmap@ =~= Set::<int>::empty());
        }
        bitmap
    }

    /// Set a bit. An index beyond the capacity changes nothing.
    pub fn set(&mut self, index: usize)
        ensures
            final(self)@ == (if index < N * usize::BITS {
                old(self)@.insert(index as int)
            } else {
                old(self)@
            }),
    {
        let _ = self.test_and_set(index);
    }

    /// Test and set a bit in one step.
    ///
    /// Returns the previous value of the bit, `false` for an index beyond the capacity.
    pub fn test_and_set(&mut self, index: usize) -> (was_set: bool)
        ensures
            was_set == old(self)@.contains(index as int),
            final(self)@ == (if index < N * usize::BITS {
                old(self)@.insert(index as int)
            } else {
                old(self)@
            }),
    {
        let word_idx = index / (usize::BITS as usize);
        let bit_idx = index % (usize::BITS as usize);
        proof {
            lemma_index(index as int, N);
        }
        if word_idx >= N {
            return false;
        }
        let mask = 1usize << bit_idx;
        let word = self.words[word_idx];
        self.words[word_idx] = word | mask;
        proof {
            assert forall|i: int| #[trigger] self@.contains(i) == old(self)@.insert(
                index as int,
            ).contains(i) by {
                lemma_index(i, N);
                if 0 <= i < N * usize::BITS && i / (usize::BITS as int) == word_idx {
                    lemma_or(word, bit_idx, (i % (usize::BITS as int)) as usize);
                }
            }
            assert(self@ =~= old(self)@.insert(index as int));
        }
        word & mask != 0
    }

    /// Clear a bit. An index beyond the capacity changes nothing.
    pub fn clear(&mut self, index: usize)
        ensures
            final(self)@ == old(self)@.remove(index as int),
    {
        let _ = self.test_and_clear(index);
    }

    /// Test and clear a bit in one step.
    ///
    /// Returns the previous value of the bit, `false` for an index beyond the capacity.
    pub fn test_and_clear(&mut self, index: usize) -> (was_set: bool)
        ensures
            was_set == old(self)@.contains(index as int),
            final(self)@ == old(self)@.remove(index as int),
    {
        let word_idx = index / (usize::BITS as usize);
        let bit_idx = index % (usize::BITS as usize);
        proof {
            lemma_index(index as int, N);
        }
        if word_idx >= N {
            assert(self@ =~= old(self)@.remove(index as int));
            return false;
        }
        let mask = 1usize << bit_idx;
        let word = self.words[word_idx];
        self.words[word_idx] = word & !mask;
        proof {
            assert forall|i: int| #[trigger] self@.contains(i) == old(self)@.remove(
                index as int,
            ).contains(i) by {
                lemma_index(i, N);
                if 0 <= i < N * usize::BITS && i / (usize::BITS as int) == word_idx {
                    lemma_and_not(word, bit_idx, (i % (usize::BITS as int)) as usize);
                }
            }
            assert(self@ =~= old(self)@.remove(index as int));
        }
        word & mask != 0
    }

    /// Test if a bit is set. An index beyond the capacity is not.
    pub fn test(&self, index: usize) -> (is_set: bool)
        ensures
            is_set == self@.contains(index as int),
    {
        let word_idx = index / (usize::BITS as usize);
        let bit_idx = index % (usize::BITS as usize);
        proof {
            lemma_index(index as int, N);
        }
        if word_idx >= N {
            return false;
        }
        self.words[word_idx] & (1usize << bit_idx) != 0
    }

    /// Find the first set bit.
    ///
    /// Returns the index of the first set bit, or `None` if all bits are clear.
    pub fn find_first_set(&self) -> (first: Option<usize>)
        requires
            Self::indexable(),
        ensures
            match first {
                Some(index) => {
                    &&& self@.contains(index as int)
                    &&& forall|i: int| #[trigger] self@.contains(i) ==> index <= i
                },
                None => self@ == Set::<int>::empty(),
            },
    {
        let mut word_idx: usize = 0;
        while word_idx < N
            invariant
                word_idx <= N,
                Self::indexable(),
                forall|k: int| 0 <= k < word_idx ==> self.words@[k] == 0,
            decreases N - word_idx,
        {
            let word = self.words[word_idx];
            if word != 0 {
                let bit_idx = (word as u64).trailing_zeros() as usize;
                proof {
                    lemma_lowest_bit(word);
                    lemma_word_base(word_idx as int, bit_idx as int, N);
                    let index = word_idx * usize::BITS + bit_idx;
                    assert(self@.contains(index));
                    assert forall|i: int| #[trigger] self@.contains(i) implies index <= i by {
                        lemma_index(i, N);
                        lemma_zero_word(i % (usize::BITS as int));
                        let k = i / (usize::BITS as int);
                        assert(k >= word_idx);
                        if k > word_idx {
                            lemma_word_base(k, i % (usize::BITS as int), N);
                            lemma_words_ordered(word_idx as int, k);
                        }
                    }
                }
                return Some(word_idx * (usize::BITS as usize) + bit_idx);
            }
            word_idx = word_idx + 1;
        }
        proof {
            self.lemma_no_word_set();
        }
        None
    }

    /// Count the number of set bits.
    pub fn count_ones(&self) -> (count: usize)
        requires
            Self::indexable(),
        ensures
            count == self@.len(),
            self@.finite(),
    {
        let bits = Self::capacity();
        let mut count: usize = 0;
        let mut index: usize = 0;
        proof {
            assert(self.below(0) =~= Set::<int>::empty());
        }
        while index < bits
            invariant
                bits == N * usize::BITS,
                index <= bits,
                count <= index,
                self.below(index as int).finite(),
                count == self.below(index as int).len(),
            decreases bits - index,
        {
            proof {
                if self@.contains(index as int) {
                    assert(self.below(index + 1) =~= self.below(index as int).insert(
                        index as int,
                    ));
                } else {
                    assert(self.below(index + 1) =~= self.below(index as int));
                }
            }
            if self.test(index) {
                count = count + 1;
            }
            index = index + 1;
        }
        assert(self.below(bits as int) =~= self@);
        count
    }

    /// Check if all bits are clear.
    pub fn is_empty(&self) -> (empty: bool)
        ensures
            empty == (self@ == Set::<int>::empty()),
    {
        let mut word_idx: usize = 0;
        while word_idx < N
            invariant
                word_idx <= N,
                forall|k: int| 0 <= k < word_idx ==> self.words@[k] == 0,
            decreases N - word_idx,
        {
            let word = self.words[word_idx];
            if word != 0 {
                proof {
                    lemma_lowest_bit(word);
                    let bit_idx = u64_trailing_zeros(word as u64) as int;
                    lemma_word_base(word_idx as int, bit_idx, N);
                    assert(self@.contains(word_idx * usize::BITS + bit_idx));
                }
                return false;
            }
            word_idx = word_idx + 1;
        }
        proof {
            self.lemma_no_word_set();
        }
        true
    }

    /// Clear all bits.
    pub fn clear_all(&mut self)
        ensures
            final(self)@ == Set::<int>::empty(),
    {
        let mut word_idx: usize = 0;
        while word_idx < N
            invariant
                word_idx <= N,
                forall|k: int| 0 <= k < word_idx ==> self.words@[k] == 0,
            decreases N - word_idx,
        {
            self.words[word_idx] = 0;
            word_idx = word_idx + 1;
        }
        proof {
            self.lemma_no_word_set();
        }
    }

    /// Get the raw word at an index, zero beyond the last word.
    pub fn word(&self, word_idx: usize) -> (word: usize)
        ensures
            word_idx >= N ==> word == 0,
            forall|b: int|
                0 <= b < usize::BITS ==> #[trigger] bit_set(word, b) == self@.contains(
                    word_idx * usize::BITS + b,
                ),
    {
        let word = if word_idx < N {
            self.words[word_idx]
        } else {
            0
        };
        proof {
            assert forall|b: int| 0 <= b < usize::BITS implies #[trigger] bit_set(word, b)
                == self@.contains(word_idx * usize::BITS + b) by {
                lemma_word_base(word_idx as int, b, N);
                lemma_zero_word(b);
            }
        }
        word
    }

    /// The set bits below `bound`.
    spec fn below(&self, bound: int) -> Set<int> {
        self@.filter(|i: int| i < bound)
    }

    proof fn lemma_no_word_set(&self)
        requires
            forall|k: int| 0 <= k < N ==> self.words@[k] == 0,
        ensures
            self@ == Set::<int>::empty(),
    {
        assert forall|i: int| !(#[trigger] self@.contains(i)) by {
            lemma_index(i, N);
            lemma_zero_word(i % (usize::BITS as int));
        }
        assert(self@ =~= Set::<int>::empty());
    }
}

impl<const N: usize> Default for AtomicBitmap<N> {
    fn default() -> (bitmap: Self)
        ensures
            bitmap@ == Set::<int>::empty(),
    {
        Self::new()
    }
}

impl<const N: usize> AtomicBitmap<N> {
    /// Only indices below the capacity are ever set.
    pub proof fn law_within_capacity(&self)
        ensures
            forall|i: int| #[trigger] self@.contains(i) ==> 0 <= i < N * usize::BITS,
    {
    }

    /// Setting a clear bit and clearing it again gives the bitmap back, and no other bit
    /// changes on the way.
    pub proof fn law_clear_undoes_set(&self, index: usize)
        requires
            index < N * usize::BITS,
            !self@.contains(index as int),
        ensures
            self@.insert(index as int).remove(index as int) == self@,
            forall|i: int|
                i != index ==> (#[trigger] self@.insert(index as int).contains(i))
                    == self@.contains(i),
    {
        assert(self@.insert(index as int).remove(index as int) =~= self@);
    }
}

/// Dividing an index by the word size gives a word of the bitmap just where the index is below
/// the capacity, and tells different indices apart.
proof fn lemma_index(i: int, n: usize)
    ensures
        0 <= i % (usize::BITS as int) < usize::BITS,
        i == (i / (usize::BITS as int)) * usize::BITS + i % (usize::BITS as int),
        (0 <= i < n * usize::BITS) <==> (0 <= i / (usize::BITS as int) < n),
{
    if usize::BITS == 64 {
        assert(i == (i / 64) * 64 + i % 64);
    } else {
        assert(i == (i / 32) * 32 + i % 32);
    }
}

proof fn lemma_zero_word(b: int)
    ensures
        !bit_set(0, b),
{
    let s = b as usize;
    assert(0usize & (1usize << s) == 0) by (bit_vector);
}

proof fn lemma_or(word: usize, b: usize, j: usize)
    requires
        b < usize::BITS,
        j < usize::BITS,
    ensures
        bit_set(word | (1usize << b), j as int) == (bit_set(word, j as int) || j == b),
{
    assert(((word | (1usize << b)) & (1usize << j) != 0) == (word & (1usize << j) != 0 || j == b))
        by (bit_vector)
        requires
            b < usize::BITS,
            j < usize::BITS,
    ;
}

proof fn lemma_and_not(word: usize, b: usize, j: usize)
    requires
        b < usize::BITS,
        j < usize::BITS,
    ensures
        bit_set(word & !(1usize << b), j as int) == (bit_set(word, j as int) && j != b),
{
    assert(((word & !(1usize << b)) & (1usize << j) != 0) == (word & (1usize << j) != 0 && j != b))
        by (bit_vector)
        requires
            b < usize::BITS,
            j < usize::BITS,
    ;
}

/// Bit `b` of word `k` is the bit at index `k * usize::BITS + b`.
proof fn lemma_word_base(k: int, b: int, n: usize)
    requires
        0 <= b < usize::BITS,
    ensures
        (k * usize::BITS + b) / (usize::BITS as int) == k,
        (k * usize::BITS + b) % (usize::BITS as int) == b,
        (0 <= k * usize::BITS + b < n * usize::BITS) <==> 0 <= k < n,
{
    if usize::BITS == 64 {
        assert((k * 64 + b) / 64 == k);
    } else {
        assert((k * 32 + b) / 32 == k);
    }
}

/// Every index in a later word is larger.
proof fn lemma_words_ordered(k: int, l: int)
    requires
        k < l,
    ensures
        (k + 1) * usize::BITS <= l * usize::BITS,
{
    if usize::BITS == 64 {
        assert((k + 1) * 64 <= l * 64);
    } else {
        assert((k + 1) * 32 <= l * 32);
    }
}

/// The number of trailing zeros of a word that is not zero is the place of its lowest set bit.
proof fn lemma_lowest_bit(word: usize)
    requires
        word != 0,
    ensures
        u64_trailing_zeros(word as u64) < usize::BITS,
        bit_set(word, u64_trailing_zeros(word as u64) as int),
        forall|b: int| 0 <= b < u64_trailing_zeros(word as u64) ==> !(#[trigger] bit_set(word, b)),
{
    vstd::std_specs::bits::axiom_u64_trailing_zeros(word as u64);
    let w = word as u64;
    let t = u64_trailing_zeros(w) as u64;
    if usize::BITS == 32 {
        assert(t < 32) by (bit_vector)
            requires
                (w >> t) & 1u64 == 1u64,
                w <= 0xffff_ffff,
                t < 64,
        ;
    }
    let s = t as usize;
    assert(word & (1usize << s) != 0) by (bit_vector)
        requires
            (w >> t) & 1u64 == 1u64,
            w == word as u64,
            t == s as u64,
            s < usize::BITS,
    ;
    assert forall|b: int| 0 <= b < t implies !(#[trigger] bit_set(word, b)) by {
        let j = b as u64;
        let k = b as usize;
        assert((w >> j) & 1u64 == 0u64);
        assert(word & (1usize << k) == 0) by (bit_vector)
            requires
                (w >> j) & 1u64 == 0u64,
                w == word as u64,
                j == k as u64,
                k < usize::BITS,
        ;
    }
}

} // verus!
