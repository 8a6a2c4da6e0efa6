//! Descriptors tied to the Rust types that they stand for.

pub mod types;
