//! Gradient-descent training orchestrator for a small feed-forward network
//! over low-dimensional labeled data.
//!
//! The library sequences forward evaluation, loss aggregation, gradient
//! reset, backpropagation, parameter update, progress reporting, held-out
//! evaluation and decision-boundary grid sampling, and proves the structural
//! guarantees of each stage.  Floating-point scalars are carried through the
//! library as their IEEE-754 bit representations (`u64`); the opaque
//! reverse-mode autodiff engine and the host's scalar arithmetic are reached
//! through capability traits that an adapter implements.

pub mod bits;
pub mod data;
pub mod engine;
pub mod eval;
pub mod grid;
pub mod result;
pub mod stub;
pub mod train;
