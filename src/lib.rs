//! A cooperative concurrency runtime for a single-processor kernel: tasks
//! and their executor, the tick-driven timer, a bounded channel and a
//! non-blocking mutex, with the byte-stream I/O traits and adapters that
//! kernel services use.

pub mod io;
pub mod platform;
pub mod sync;
pub mod tasks;
