//! The decisions behind the edge cases of a two-component vector type.
//!
//! The vector's arithmetic is floating point and lives beside this crate;
//! what is proved here is which branch each guarded operation takes, given
//! the outcome of the comparisons it makes on its operands.
pub mod branch;
