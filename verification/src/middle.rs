//! Untyped descriptors: what a C type is and how it is laid out, and the
//! call interface that a list of argument types and a result type make.

pub mod cif;
pub mod types;

pub use cif::{Abi, Cif, CifView, MAX_ARGS};
pub use types::{Error, Extent, Layout, Type, TypeView};
