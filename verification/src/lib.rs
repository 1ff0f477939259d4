//! Shape semantics of the Deep Delta Learning blocks.
//!
//! The numerical work of the Delta-Res block runs on Burn tensors of floats. What the
//! library decides before any number is touched is which tensor shapes flow through each
//! operator, and which combinations of shapes Burn refuses. This crate states and proves
//! that part: every operator is given as a function on tensor dimensions, `[usize; N]`
//! standing for the `dims()` of a rank-`N` tensor, returning `None` exactly where Burn's
//! shape checks reject the inputs.

pub mod branches;
pub mod delta;
pub mod nn;
pub mod shape;
