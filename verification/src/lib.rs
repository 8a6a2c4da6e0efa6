//! Typed descriptions of C types and of call interfaces built from them,
//! and the plan by which the native library is compiled with MSVC.
//!
//! * [`middle`] holds the untyped descriptors: what a C type is, how it is
//!   laid out, and the call interface made of argument and result types.
//! * [`high`] ties a descriptor to the Rust type it stands for.
//! * [`msvc`] chooses sources, include paths and the assembly template of
//!   an architecture and configures the compiler with them.
//! * [`toolchain`] says what is taken on trust of the compiler driver.
//! * [`text`] joins and compares the strings that the plan is made of.

pub mod high;
pub mod middle;
pub mod msvc;
pub mod text;
pub mod toolchain;
