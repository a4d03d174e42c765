//! A first-in, first-out queue built from two growable buffers, together with
//! a handful of small utilities that stand each on its own.
//!
//! - [`queue`]: the queue, generic and for characters, and the mathematical
//!   state that its contracts speak of.
//! - [`history`]: what holds of a queue over any run of pushes and pops.
//! - [`rough_time`], [`decimal`]: rounded-off timestamps in English words.
//! - [`enums`], [`tree`]: small enumerations and a binary tree.
//! - [`generic`], [`extrema`], [`hello`]: a minimum, a dot product, the
//!   extrema of a slice, and a greeting.
//! - [`complex`]: complex numbers with their operators.

pub mod complex;
pub mod decimal;
pub mod enums;
pub mod extrema;
pub mod generic;
pub mod hello;
pub mod history;
pub mod queue;
pub mod rough_time;
pub mod tree;
