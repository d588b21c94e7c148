//! Fixed-size building blocks for code that runs where nothing may block or allocate.

pub mod bitmap;
pub mod ring;
pub mod sequence;

pub use bitmap::AtomicBitmap;
pub use ring::SpscRingBuffer;
pub use sequence::AtomicSequence;
