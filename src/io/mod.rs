use vstd::prelude::*;

pub mod error;
pub mod read;
pub mod write;
pub mod seek;
pub mod cursor;
pub mod empty;
pub mod buf_read;
pub mod chain;
pub mod take;
pub mod copy;
pub mod buf_reader;
pub mod buf_writer;
pub mod line_writer;

verus! {

/// Default size of the buffers of the buffered readers and writers.
pub const DEFAULT_BUF_CAPACITY: usize = 1024;

} // verus!
