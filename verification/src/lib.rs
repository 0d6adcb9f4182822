//! A fixed-capacity staging buffer for tokenized documents, laid out as four
//! parallel arrays of 32-bit integers that a GPU topic-model sampler reads and
//! writes in place.
//!
//! [`Buffer`] owns the arrays; [`BufferView`] is what a buffer holds as plain
//! mathematical values, and every contract is stated over it. The module
//! `lemmas` proves what holds of every well-formed buffer.

pub mod buffer;
pub mod error;
pub mod lemmas;
pub mod storage;
pub mod view;

pub use buffer::Buffer;
pub use error::BufferError;
pub use view::BufferView;
