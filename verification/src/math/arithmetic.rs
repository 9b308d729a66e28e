//! Arithmetic cell by cell: a scalar added to or taken from every cell, and
//! the sum of two matrices of one extent.

use crate::math::dim::MatrixError;
use crate::math::matrix::Matrix;
use crate::math::model::lemma_plus_commutes;
use crate::math::scalar::Scalar;
use vstd::prelude::*;

verus! {

impl<T: Scalar> Matrix<T> {
    /// The matrix of the same extent whose every cell is that of `self`
    /// with `rhs` added to it.
    pub fn add_scalar(&self, rhs: T) -> (out: Matrix<T>)
        ensures
            out@ == self@.plus_scalar(rhs),
            out@.well_formed(),
    {
        let cells = self.data();
        let mut data: Vec<T> = Vec::with_capacity(cells.len());
        let mut i: usize = 0;
        while i < cells.len()
            invariant
                i <= cells@.len(),
                data@.len() == i,
                forall|k: int| 0 <= k < i ==> data@[k] == cells@[k].sum(rhs),
            decreases cells@.len() - i,
        {
            data.push(cells[i].add(rhs));
            i += 1;
        }
        assert(data@ =~= self@.plus_scalar(rhs).cells);
        Matrix::from_parts(data, self.dim())
    }

    /// The scalar `lhs` added to every cell of `rhs`: the same matrix as
    /// `rhs.add_scalar(lhs)`.
    pub fn scalar_add(lhs: T, rhs: &Matrix<T>) -> (out: Matrix<T>)
        ensures
            out@ == rhs@.plus_scalar(lhs),
            out@.well_formed(),
    {
        rhs.add_scalar(lhs)
    }

    /// The matrix of the same extent whose every cell is that of `self`
    /// with `rhs` taken from it.
    pub fn sub_scalar(&self, rhs: T) -> (out: Matrix<T>)
        ensures
            out@ == self@.minus_scalar(rhs),
            out@.well_formed(),
    {
        let cells = self.data();
        let mut data: Vec<T> = Vec::with_capacity(cells.len());
        let mut i: usize = 0;
        while i < cells.len()
            invariant
                i <= cells@.len(),
                data@.len() == i,
                forall|k: int| 0 <= k < i ==> data@[k] == cells@[k].difference(rhs),
            decreases cells@.len() - i,
        {
            data.push(cells[i].sub(rhs));
            i += 1;
        }
        assert(data@ =~= self@.minus_scalar(rhs).cells);
        Matrix::from_parts(data, self.dim())
    }

    /// The sum of two matrices, cell by cell. The operands may be exchanged.
    ///
    /// Refused with `DimensionIncompatibility` exactly when the extents
    /// differ, in rows or in columns.
    pub fn add_matrix(&self, rhs: &Matrix<T>) -> (r: Result<Matrix<T>, MatrixError>)
        ensures
            r is Ok <==> self@.same_shape(rhs@),
            r matches Ok(out) ==> out@ == self@.plus(rhs@) && out@ == rhs@.plus(self@)
                && out@.well_formed(),
            r matches Err(e) ==> e == MatrixError::DimensionIncompatibility,
    {
        let shape = self.dim();
        let other = rhs.dim();
        if shape.rows() != other.rows() || shape.columns() != other.columns() {
            return Err(MatrixError::DimensionIncompatibility);
        }
        let left = self.data();
        let right = rhs.data();
        let mut data: Vec<T> = Vec::with_capacity(left.len());
        let mut i: usize = 0;
        while i < left.len()
            invariant
                i <= left@.len(),
                left@.len() == right@.len(),
                data@.len() == i,
                forall|k: int| 0 <= k < i ==> data@[k] == left@[k].sum(right@[k]),
            decreases left@.len() - i,
        {
            data.push(left[i].add(right[i]));
            i += 1;
        }
        proof {
            assert(data@ =~= self@.plus(rhs@).cells);
            lemma_plus_commutes(self@, rhs@);
        }
        Ok(Matrix::from_parts(data, shape))
    }
}

} // verus!
