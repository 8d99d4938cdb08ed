//! Worst-case encoded sizes for algebraic data types under a fixed binary
//! format with one-byte tags and presence flags and little-endian fixed-width
//! scalars.
//!
//! A type is described by a [`shape::Shape`]; [`shape::declared_size`]
//! computes the largest byte length any value of the described type can
//! encode to, and [`maximal::maximized`] builds a concrete value attaining
//! it. The [`sizable::Maximized`] trait carries the same two operations, with
//! the same proof obligations, for Rust types themselves.

pub mod laws;
pub mod maximal;
pub mod shape;
pub mod sizable;
pub mod value;

pub use crate::maximal::{fill_fields, maximized, maximum};
pub use crate::shape::{
    declared_size, max_variant_size, sum_fields, try_declared_size, try_max_variant_size,
    try_sum_fields, Fields, Shape, Variants,
};
pub use crate::sizable::Maximized;
pub use crate::value::{byte_len, members_len, Items, Value};
