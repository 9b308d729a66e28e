//! Shapes, matrices and the operations on them.

pub mod arithmetic;
pub mod dim;
pub mod matrix;
pub mod model;
pub mod product;
pub mod scalar;

pub use dim::Dim;
pub use dim::MatrixError;
pub use matrix::transpose;
pub use matrix::Matrix;
pub use model::MatrixModel;
pub use product::dot;
pub use product::dot_with;
pub use product::slow_dot;
pub use product::transpose_dot;
pub use product::Strategy;
pub use scalar::Scalar;
