//! An adapter that lets a BLAKE3 hashing engine be driven through a plain
//! streaming-hash interface: feed bytes incrementally, then extract a
//! caller-chosen number of output bytes from the engine's extensible output.

pub mod adapter;
pub mod engine;
pub mod laws;

pub use adapter::Blake3;
