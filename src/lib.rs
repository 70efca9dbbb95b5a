//! A thread-safe, in-memory store mapping byte sequences to byte sequences.

pub mod byte_buf;
pub mod records;
pub mod store;
pub mod laws;
