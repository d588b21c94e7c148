use axwatchdog::{AtomicBitmap, AtomicSequence, SpscRingBuffer};

#[test]
fn test_spsc_basic() {
    let mut buf: SpscRingBuffer<u32, 4> = SpscRingBuffer::new();

    assert!(buf.is_empty());
    assert!(!buf.is_full());

    buf.push(1).unwrap();
    buf.push(2).unwrap();
    buf.push(3).unwrap();
    buf.push(4).unwrap();

    assert!(buf.is_full());
    assert!(buf.push(5).is_err());

    assert_eq!(buf.pop(), Some(1));
    assert_eq!(buf.pop(), Some(2));
    assert_eq!(buf.pop(), Some(3));
    assert_eq!(buf.pop(), Some(4));
    assert_eq!(buf.pop(), None);

    assert!(buf.is_empty());
}

#[test]
fn test_bitmap_basic() {
    let mut bitmap: AtomicBitmap<2> = AtomicBitmap::new();

    assert!(bitmap.is_empty());
    assert!(!bitmap.test(0));

    bitmap.set(0);
    assert!(bitmap.test(0));
    assert!(!bitmap.test(1));

    bitmap.set(63);
    bitmap.set(64);

    assert_eq!(bitmap.count_ones(), 3);
    assert_eq!(bitmap.find_first_set(), Some(0));

    bitmap.clear(0);
    assert_eq!(bitmap.find_first_set(), Some(63));
}

#[test]
fn test_sequence() {
    let mut seq = AtomicSequence::new();

    assert_eq!(seq.get(), 0);
    assert_eq!(seq.increment(), 1);
    assert_eq!(seq.increment(), 2);
    assert_eq!(seq.get(), 2);

    seq.reset();
    assert_eq!(seq.get(), 0);
}

#[test]
fn ring_keeps_order_across_many_turns() {
    let mut buf: SpscRingBuffer<u32, 4> = SpscRingBuffer::new();
    assert_eq!(buf.capacity(), 4);
    let mut next_out = 0;
    for n in 0..100u32 {
        assert_eq!(buf.push(n), Ok(()));
        if n % 3 != 0 {
            assert_eq!(buf.pop(), Some(next_out));
            next_out += 1;
        }
        if buf.len() == 3 {
            assert_eq!(buf.pop(), Some(next_out));
            next_out += 1;
        }
    }
}

#[test]
fn ring_refuses_when_full_and_hands_the_item_back() {
    let mut buf: SpscRingBuffer<char, 2> = SpscRingBuffer::new();
    assert_eq!(buf.push('a'), Ok(()));
    assert_eq!(buf.push('b'), Ok(()));
    assert_eq!(buf.push('c'), Err('c'));
    assert_eq!(buf.len(), 2);
    assert_eq!(buf.pop(), Some('a'));
    assert_eq!(buf.push('c'), Ok(()));
    assert_eq!(buf.pop(), Some('b'));
    assert_eq!(buf.pop(), Some('c'));
}

#[test]
fn ring_of_one_slot() {
    let mut buf: SpscRingBuffer<u8, 1> = SpscRingBuffer::default();
    assert_eq!(buf.push(7), Ok(()));
    assert!(buf.is_full());
    assert_eq!(buf.push(8), Err(8));
    assert_eq!(buf.pop(), Some(7));
    assert!(buf.is_empty());
}

#[test]
fn ring_clear_drops_everything() {
    let mut buf: SpscRingBuffer<u32, 8> = SpscRingBuffer::new();
    for n in 0..5 {
        buf.push(n).unwrap();
    }
    buf.clear();
    assert!(buf.is_empty());
    assert_eq!(buf.len(), 0);
    assert_eq!(buf.pop(), None);
    buf.push(9).unwrap();
    assert_eq!(buf.pop(), Some(9));
}

#[test]
fn ring_producer_with_stale_position_never_overwrites() {
    let mut buf: SpscRingBuffer<u32, 2> = SpscRingBuffer::new();
    buf.push(1).unwrap();
    buf.push(2).unwrap();
    // The producer read position 0; meanwhile the consumer takes one item.
    assert_eq!(buf.pop(), Some(1));
    assert_eq!(buf.push_seeing(0, 3), Err(3));
    assert_eq!(buf.push_seeing(1, 3), Ok(()));
    assert_eq!(buf.pop(), Some(2));
    assert_eq!(buf.pop(), Some(3));
}

#[test]
fn ring_consumer_with_stale_position_sees_less() {
    let mut buf: SpscRingBuffer<u32, 4> = SpscRingBuffer::new();
    // The consumer read position 0; meanwhile the producer adds two items.
    buf.push(1).unwrap();
    buf.push(2).unwrap();
    assert_eq!(buf.pop_seeing(0), None);
    assert_eq!(buf.pop_seeing(1), Some(1));
    assert_eq!(buf.pop_seeing(1), None);
    assert_eq!(buf.pop_seeing(2), Some(2));
}

#[test]
fn bitmap_test_and_set_tells_the_previous_value() {
    let mut bitmap: AtomicBitmap<1> = AtomicBitmap::default();
    assert!(!bitmap.test_and_set(5));
    assert!(bitmap.test_and_set(5));
    assert!(bitmap.test_and_clear(5));
    assert!(!bitmap.test_and_clear(5));
    assert!(bitmap.is_empty());
}

#[test]
fn bitmap_ignores_indices_beyond_capacity() {
    let mut bitmap: AtomicBitmap<2> = AtomicBitmap::new();
    let capacity = AtomicBitmap::<2>::capacity();
    assert_eq!(capacity, 2 * usize::BITS as usize);
    bitmap.set(capacity);
    bitmap.set(usize::MAX);
    assert!(bitmap.is_empty());
    assert!(!bitmap.test(capacity));
    assert!(!bitmap.test_and_set(capacity));
    assert!(!bitmap.test_and_clear(capacity));
    bitmap.set(capacity - 1);
    bitmap.clear(capacity);
    assert!(bitmap.test(capacity - 1));
    assert_eq!(bitmap.count_ones(), 1);
    assert_eq!(bitmap.find_first_set(), Some(capacity - 1));
}

#[test]
fn bitmap_words_and_clear_all() {
    let mut bitmap: AtomicBitmap<2> = AtomicBitmap::new();
    bitmap.set(0);
    bitmap.set(3);
    bitmap.set(usize::BITS as usize + 1);
    assert_eq!(bitmap.word(0), 0b1001);
    assert_eq!(bitmap.word(1), 0b10);
    assert_eq!(bitmap.word(2), 0);
    assert_eq!(bitmap.count_ones(), 3);
    bitmap.clear_all();
    assert!(bitmap.is_empty());
    assert_eq!(bitmap.find_first_set(), None);
    assert_eq!(bitmap.count_ones(), 0);
}

#[test]
fn sequence_overflow_shows_as_zero() {
    let mut seq = AtomicSequence::with_initial(u64::MAX - 1);
    assert_eq!(seq.increment(), u64::MAX);
    assert_eq!(seq.increment(), 0);
    assert_eq!(seq.increment(), 1);
}

#[test]
fn sequence_compare_exchange() {
    let mut seq = AtomicSequence::default();
    assert_eq!(seq.compare_exchange(0, 5), Ok(0));
    assert_eq!(seq.compare_exchange(0, 9), Err(5));
    assert_eq!(seq.get(), 5);
}

#[test]
fn ring_accepts_what_it_hands_out_and_holds() {
    let mut buf: SpscRingBuffer<u32, 4> = SpscRingBuffer::new();
    let mut accepted = Vec::new();
    let mut popped = Vec::new();
    for n in 0..200u32 {
        if n * n % 7 < 4 {
            if buf.push(n).is_ok() {
                accepted.push(n);
            }
        } else if let Some(item) = buf.pop() {
            popped.push(item);
        }
    }
    assert!(!popped.is_empty() && accepted.len() < 200);
    while let Some(item) = buf.pop() {
        popped.push(item);
    }
    assert_eq!(accepted, popped);
}
