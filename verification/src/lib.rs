//! Dense two-dimensional matrices, and the generators from which random
//! matrices are filled.
//!
//! [`math`] holds the extent of a matrix, the matrix itself, its transpose,
//! three ways to compute a product, and arithmetic cell by cell. The cells
//! are of any type that implements [`math::Scalar`]; the contracts speak of
//! a matrix through its model, [`math::MatrixModel`], and every law of the
//! operations is a proof function beside it.
//!
//! [`random`] holds a seed expander, the bit generator that it seeds, and
//! the state of a sampler that makes normal variates in pairs. Each draw is
//! a function of the state before it, so that a seed fixes a stream; the
//! constructors without a seed read the wall clock.

pub mod math;
pub mod random;
