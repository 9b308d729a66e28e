//! The matrix product, computed in three ways that differ in how they walk
//! the operands and not in what they compute.

use crate::math::dim::Dim;
use crate::math::dim::MatrixError;
use crate::math::matrix::transpose;
use crate::math::matrix::Matrix;
use crate::math::model::inner_product;
use crate::math::model::lemma_offset;
use crate::math::model::lemma_row;
use crate::math::model::lemma_transposed_cell;
use crate::math::model::partial_inner_product;
use crate::math::model::MatrixModel;
use crate::math::scalar::Scalar;
use vstd::prelude::*;
use vstd::slice::slice_subrange;

verus! {

/// How a product is computed.
#[derive(Clone, Copy, Debug, PartialEq, Eq, Structural)]
pub enum Strategy {
    /// Straight from the two buffers, with no buffer besides the result.
    Direct,
    /// From the left operand and the transpose of the right one, so that
    /// both are read along their rows.
    TransposeAssisted,
    /// From the rows of the left operand and the columns of the right one,
    /// each column copied out beforehand.
    ColumnMaterializing,
}

/// Whether `out` holds, row after row, the first cells of the product of
/// `a` and `b`.
spec fn product_so_far<T: Scalar>(out: Seq<T>, a: MatrixModel<T>, b: MatrixModel<T>) -> bool {
    forall|p: int|
        0 <= p < out.len() ==> #[trigger] out[p] == inner_product(
            a.row(p / (b.columns as int)),
            b.column(p % (b.columns as int)),
        )
}

/// The extent of the product of `lhs` and `rhs`, which exists exactly when
/// `lhs` has as many columns as `rhs` has rows.
fn product_shape<T>(lhs: &Matrix<T>, rhs: &Matrix<T>) -> (r: Result<Dim, MatrixError>)
    ensures
        r is Ok <==> lhs@.columns == rhs@.rows,
        r matches Ok(shape) ==> shape.spec_rows() == lhs@.rows && shape.spec_columns()
            == rhs@.columns,
        r matches Err(e) ==> e == MatrixError::DimensionIncompatibility,
        lhs@.well_formed(),
        rhs@.well_formed(),
{
    match lhs.dim().dot(&rhs.dim()) {
        Some(shape) => Ok(shape),
        None => Err(MatrixError::DimensionIncompatibility),
    }
}

/// An empty buffer for the cells of a `rows` by `columns` matrix, with
/// room for all of them where their number fits in `usize`.
fn buffer_for<T>(rows: usize, columns: usize) -> (buffer: Vec<T>)
    ensures
        buffer@.len() == 0,
{
    match rows.checked_mul(columns) {
        Some(count) => Vec::with_capacity(count),
        None => Vec::new(),
    }
}

/// The product of `lhs` and `rhs`, computed straight from the two buffers.
///
/// Refused with `DimensionIncompatibility` exactly when the columns of
/// `lhs` differ in number from the rows of `rhs`.
#[verifier::loop_isolation(false)]
pub fn dot<T: Scalar>(lhs: &Matrix<T>, rhs: &Matrix<T>) -> (r: Result<Matrix<T>, MatrixError>)
    ensures
        r is Ok <==> lhs@.columns == rhs@.rows,
        r matches Ok(m) ==> m@ == lhs@.times(rhs@) && m@.well_formed(),
        r matches Err(e) ==> e == MatrixError::DimensionIncompatibility,
{
    let new_shape = match product_shape(lhs, rhs) {
        Ok(shape) => shape,
        Err(e) => {
            return Err(e);
        },
    };
    let left = lhs.data();
    let right = rhs.data();
    let rows = new_shape.rows();
    let cols = new_shape.columns();
    let items = lhs.dim().columns();
    let mut out_data: Vec<T> = buffer_for(rows, cols);
    assert(left@.len() == left.len() && right@.len() == right.len());
    let mut row: usize = 0;
    while row < rows
        invariant
            row <= rows,
            out_data@.len() == row * cols,
            product_so_far(out_data@, lhs@, rhs@),
        decreases rows - row,
    {
        let mut col: usize = 0;
        while col < cols
            invariant
                row < rows,
                col <= cols,
                out_data@.len() == row * cols + col,
                product_so_far(out_data@, lhs@, rhs@),
            decreases cols - col,
        {
            let mut sum = T::zero();
            let mut idx: usize = 0;
            while idx < items
                invariant
                    row < rows,
                    col < cols,
                    idx <= items,
                    sum == partial_inner_product(lhs@.row(row as int), rhs@.column(col as int), idx as nat),
                decreases items - idx,
            {
                proof {
                    lemma_offset(rows as int, items as int, row as int, idx as int);
                    lemma_offset(items as int, cols as int, idx as int, col as int);
                    lemma_row(lhs@, row as int);
                }
                let l_idx: usize = row * items + idx;
                let r_idx: usize = idx * cols + col;
                assert(lhs@.row(row as int)[idx as int] == left@[l_idx as int]);
                assert(rhs@.column(col as int)[idx as int] == right@[r_idx as int]);
                sum = sum.add(left[l_idx].mul(right[r_idx]));
                idx += 1;
            }
            proof {
                lemma_row(lhs@, row as int);
                lemma_offset(rows as int, cols as int, row as int, col as int);
            }
            out_data.push(sum);
            col += 1;
        }
        assert((row + 1) * cols == row * cols + cols) by (nonlinear_arith);
        row += 1;
    }
    assert(out_data@ =~= lhs@.times(rhs@).cells);
    Ok(Matrix::from_parts(out_data, new_shape))
}

/// The product of `lhs` and `rhs`, computed from `lhs` and the transpose of
/// `rhs`, which is built first: both buffers are then read along their rows.
///
/// Refused with `DimensionIncompatibility` exactly when the columns of
/// `lhs` differ in number from the rows of `rhs`.
#[verifier::loop_isolation(false)]
pub fn transpose_dot<T: Scalar>(lhs: &Matrix<T>, rhs: &Matrix<T>) -> (r: Result<
    Matrix<T>,
    MatrixError,
>)
    ensures
        r is Ok <==> lhs@.columns == rhs@.rows,
        r matches Ok(m) ==> m@ == lhs@.times(rhs@) && m@.well_formed(),
        r matches Err(e) ==> e == MatrixError::DimensionIncompatibility,
{
    let new_shape = match product_shape(lhs, rhs) {
        Ok(shape) => shape,
        Err(e) => {
            return Err(e);
        },
    };
    let t_rhs = transpose(rhs);
    let left = lhs.data();
    let right = t_rhs.data();
    let rows = new_shape.rows();
    let cols = new_shape.columns();
    let items = lhs.dim().columns();
    let mut out_data: Vec<T> = buffer_for(rows, cols);
    assert(left@.len() == left.len() && right@.len() == right.len());
    let mut row: usize = 0;
    while row < rows
        invariant
            row <= rows,
            out_data@.len() == row * cols,
            product_so_far(out_data@, lhs@, rhs@),
        decreases rows - row,
    {
        let mut col: usize = 0;
        while col < cols
            invariant
                row < rows,
                col <= cols,
                out_data@.len() == row * cols + col,
                product_so_far(out_data@, lhs@, rhs@),
            decreases cols - col,
        {
            let mut sum = T::zero();
            let mut idx: usize = 0;
            while idx < items
                invariant
                    row < rows,
                    col < cols,
                    idx <= items,
                    sum == partial_inner_product(lhs@.row(row as int), rhs@.column(col as int), idx as nat),
                decreases items - idx,
            {
                proof {
                    lemma_offset(rows as int, items as int, row as int, idx as int);
                    lemma_offset(cols as int, items as int, col as int, idx as int);
                    lemma_row(lhs@, row as int);
                    lemma_transposed_cell(rhs@, idx as int, col as int);
                }
                let l_idx: usize = row * items + idx;
                let r_idx: usize = col * items + idx;
                assert(lhs@.row(row as int)[idx as int] == left@[l_idx as int]);
                assert(rhs@.column(col as int)[idx as int] == right@[r_idx as int]);
                sum = sum.add(left[l_idx].mul(right[r_idx]));
                idx += 1;
            }
            proof {
                lemma_row(lhs@, row as int);
                lemma_offset(rows as int, cols as int, row as int, col as int);
            }
            out_data.push(sum);
            col += 1;
        }
        assert((row + 1) * cols == row * cols + cols) by (nonlinear_arith);
        row += 1;
    }
    assert(out_data@ =~= lhs@.times(rhs@).cells);
    Ok(Matrix::from_parts(out_data, new_shape))
}

/// The inner product of `a` and `b`, over as many places as both have.
fn inner_product_of<T: Scalar>(a: &[T], b: &[T]) -> (sum: T)
    ensures
        sum == partial_inner_product(
            a@,
            b@,
            (if a@.len() <= b@.len() {
                a@.len()
            } else {
                b@.len()
            }),
        ),
{
    let places = if a.len() <= b.len() {
        a.len()
    } else {
        b.len()
    };
    let mut sum = T::zero();
    let mut idx: usize = 0;
    while idx < places
        invariant
            idx <= places,
            places <= a@.len(),
            places <= b@.len(),
            sum == partial_inner_product(a@, b@, idx as nat),
        decreases places - idx,
    {
        sum = sum.add(a[idx].mul(b[idx]));
        idx += 1;
    }
    sum
}

/// The columns of `mat`, each copied into a vector of its own.
#[verifier::loop_isolation(false)]
fn columns_of<T: Copy>(mat: &Matrix<T>) -> (columns: Vec<Vec<T>>)
    ensures
        columns@.len() == mat@.columns,
        forall|c: int| 0 <= c < columns@.len() ==> (#[trigger] columns@[c])@ == mat@.column(c),
{
    let shape = mat.dim();
    let cells = mat.data();
    let rows = shape.rows();
    let cols = shape.columns();
    assert(cells@.len() == cells.len());
    let mut columns: Vec<Vec<T>> = Vec::with_capacity(cols);
    let mut c: usize = 0;
    while c < cols
        invariant
            c <= cols,
            columns@.len() == c,
            forall|k: int| 0 <= k < columns@.len() ==> (#[trigger] columns@[k])@ == mat@.column(k),
        decreases cols - c,
    {
        let mut column: Vec<T> = Vec::with_capacity(rows);
        let mut r: usize = 0;
        while r < rows
            invariant
                c < cols,
                r <= rows,
                column@.len() == r,
                forall|k: int| 0 <= k < r ==> column@[k] == mat@.at(k, c as int),
            decreases rows - r,
        {
            proof {
                lemma_offset(rows as int, cols as int, r as int, c as int);
            }
            column.push(cells[r * cols + c]);
            r += 1;
        }
        assert(column@ =~= mat@.column(c as int));
        columns.push(column);
        c += 1;
    }
    columns
}

/// The product of `lhs` and `rhs`, computed from the rows of `lhs` and from
/// the columns of `rhs`, every one of which is copied out first: each cell
/// is the inner product of one row and one such column. The slowest of the
/// three ways, kept as the one to measure the others against.
///
/// Refused with `DimensionIncompatibility` exactly when the columns of
/// `lhs` differ in number from the rows of `rhs`.
#[verifier::loop_isolation(false)]
pub fn slow_dot<T: Scalar>(lhs: &Matrix<T>, rhs: &Matrix<T>) -> (r: Result<Matrix<T>, MatrixError>)
    ensures
        r is Ok <==> lhs@.columns == rhs@.rows,
        r matches Ok(m) ==> m@ == lhs@.times(rhs@) && m@.well_formed(),
        r matches Err(e) ==> e == MatrixError::DimensionIncompatibility,
{
    let new_shape = match product_shape(lhs, rhs) {
        Ok(shape) => shape,
        Err(e) => {
            return Err(e);
        },
    };
    let left = lhs.data();
    let rows = new_shape.rows();
    let cols = new_shape.columns();
    let items = lhs.dim().columns();
    let mut out_data: Vec<T> = buffer_for(rows, cols);
    let m2_cols = columns_of(rhs);
    assert(left@.len() == left.len());
    let mut row: usize = 0;
    while row < rows
        invariant
            row <= rows,
            out_data@.len() == row * cols,
            product_so_far(out_data@, lhs@, rhs@),
        decreases rows - row,
    {
        proof {
            lemma_offset(rows as int, items as int, row as int, items - 1);
            lemma_row(lhs@, row as int);
            assert((row + 1) * items == row * items + items) by (nonlinear_arith);
        }
        let m1_row = slice_subrange(left, row * items, row * items + items);
        assert(m1_row@ == lhs@.row(row as int));
        let mut col: usize = 0;
        while col < cols
            invariant
                row < rows,
                col <= cols,
                out_data@.len() == row * cols + col,
                product_so_far(out_data@, lhs@, rhs@),
            decreases cols - col,
        {
            let cell = inner_product_of(m1_row, m2_cols[col].as_slice());
            proof {
                lemma_offset(rows as int, cols as int, row as int, col as int);
            }
            out_data.push(cell);
            col += 1;
        }
        assert((row + 1) * cols == row * cols + cols) by (nonlinear_arith);
        row += 1;
    }
    assert(out_data@ =~= lhs@.times(rhs@).cells);
    Ok(Matrix::from_parts(out_data, new_shape))
}

/// The product of `lhs` and `rhs`, computed in the way that `strategy`
/// names. What is returned does not depend on the way.
///
/// Refused with `DimensionIncompatibility` exactly when the columns of
/// `lhs` differ in number from the rows of `rhs`.
pub fn dot_with<T: Scalar>(lhs: &Matrix<T>, rhs: &Matrix<T>, strategy: Strategy) -> (r: Result<
    Matrix<T>,
    MatrixError,
>)
    ensures
        r is Ok <==> lhs@.columns == rhs@.rows,
        r matches Ok(m) ==> m@ == lhs@.times(rhs@) && m@.well_formed(),
        r matches Err(e) ==> e == MatrixError::DimensionIncompatibility,
{
    match strategy {
        Strategy::Direct => dot(lhs, rhs),
        Strategy::TransposeAssisted => transpose_dot(lhs, rhs),
        Strategy::ColumnMaterializing => slow_dot(lhs, rhs),
    }
}

} // verus!
