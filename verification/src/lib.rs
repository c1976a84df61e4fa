//! A minimal typed buffer: a fixed-capacity block of elements with
//! bounds-checked bulk copy operations into and out of it.

pub mod buffer;

pub use buffer::BufferError;
pub use buffer::TypedBuffer;
pub use buffer::overwritten;
pub use buffer::lemma_non_interference;
pub use buffer::lemma_round_trip;
pub use buffer::lemma_zero_length_write_is_noop;
