//! Extension traits for types of the standard library.

pub mod vec;
