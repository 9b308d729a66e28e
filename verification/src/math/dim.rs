//! The extent of a matrix: a pair of positive dimensions.

use vstd::prelude::*;

verus! {

/// Why a shape, a matrix or an operation on matrices was refused.
#[derive(Clone, Copy, Debug, PartialEq, Eq, Structural)]
pub enum MatrixError {
    /// A dimension of the extent is zero.
    InvalidShape,
    /// The number of values supplied differs from the element count of the shape.
    ShapeMismatch,
    /// The shapes of the two operands do not allow the operation.
    DimensionIncompatibility,
}

/// The extent (rows, columns) of a matrix. Both dimensions are positive, and
/// a value never changes once it is made.
#[derive(Clone, Copy, Debug)]
pub struct Dim {
    shape: [usize; 2],
}

impl Dim {
    /// What holds of every extent: neither dimension is zero.
    #[verifier::type_invariant]
    pub open spec fn positive(self) -> bool {
        self.spec_rows() > 0 && self.spec_columns() > 0
    }

    /// Number of rows.
    pub closed spec fn spec_rows(&self) -> usize {
        self.shape[0]
    }

    /// Number of columns.
    pub closed spec fn spec_columns(&self) -> usize {
        self.shape[1]
    }

    /// The number of cells of a matrix of this extent.
    pub open spec fn element_count(self) -> nat {
        (self.spec_rows() * self.spec_columns()) as nat
    }

    /// Whether a matrix of this extent can be multiplied from the right by
    /// one of extent `rhs`.
    pub open spec fn compatible(self, rhs: Dim) -> bool {
        self.spec_columns() == rhs.spec_rows()
    }

    /// Describes the extent `shape`, rows first. Refused exactly when a
    /// dimension is zero.
    pub fn new(shape: &[usize; 2]) -> (r: Result<Dim, MatrixError>)
        ensures
            r is Ok <==> shape[0] > 0 && shape[1] > 0,
            r matches Ok(d) ==> d.rows() == shape[0] && d.columns() == shape[1],
            r matches Err(e) ==> e == MatrixError::InvalidShape,
    {
        if shape[0] == 0 || shape[1] == 0 {
            Err(MatrixError::InvalidShape)
        } else {
            Ok(Dim { shape: [shape[0], shape[1]] })
        }
    }

    /// Number of rows.
    #[verifier::when_used_as_spec(spec_rows)]
    pub fn rows(&self) -> (r: usize)
        ensures
            r == self.spec_rows(),
            r > 0,
    {
        proof {
            use_type_invariant(self);
        }
        self.shape[0]
    }

    /// Number of columns.
    #[verifier::when_used_as_spec(spec_columns)]
    pub fn columns(&self) -> (r: usize)
        ensures
            r == self.spec_columns(),
            r > 0,
    {
        proof {
            use_type_invariant(self);
        }
        self.shape[1]
    }

    /// The product of the two dimensions, where `usize` can hold it.
    pub fn total_elements(&self) -> (n: usize)
        requires
            self.element_count() <= usize::MAX,
        ensures
            n == self.element_count(),
    {
        self.shape[0] * self.shape[1]
    }

    /// The product of the two dimensions, or `None` where `usize` cannot hold it.
    pub fn checked_total_elements(&self) -> (n: Option<usize>)
        ensures
            n is Some <==> self.element_count() <= usize::MAX,
            n matches Some(count) ==> count == self.element_count(),
    {
        self.shape[0].checked_mul(self.shape[1])
    }

    /// The extent with rows and columns exchanged.
    pub fn transposed(&self) -> (d: Dim)
        ensures
            d.rows() == self.columns(),
            d.columns() == self.rows(),
    {
        proof {
            use_type_invariant(self);
        }
        Dim { shape: [self.shape[1], self.shape[0]] }
    }

    /// The extent of the product of a matrix of this extent with one of
    /// extent `rhs`: the rows of the left and the columns of the right.
    /// `None` exactly when the columns of the left differ from the rows of
    /// the right.
    pub fn dot(&self, rhs: &Dim) -> (r: Option<Dim>)
        ensures
            r is Some <==> self.compatible(*rhs),
            r matches Some(d) ==> d.rows() == self.rows() && d.columns() == rhs.columns(),
    {
        proof {
            use_type_invariant(self);
            use_type_invariant(rhs);
        }
        if self.shape[1] != rhs.shape[0] {
            None
        } else {
            Some(Dim { shape: [self.shape[0], rhs.shape[1]] })
        }
    }
}

} // verus!
