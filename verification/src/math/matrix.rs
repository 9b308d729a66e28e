//! The matrix: a buffer of cells in row-major order, and its extent.

use crate::math::dim::Dim;
use crate::math::dim::MatrixError;
use crate::math::model::lemma_offset;
use crate::math::model::lemma_transpose_involution;
use crate::math::model::MatrixModel;
use crate::math::scalar::Scalar;
use vstd::prelude::*;

verus! {

/// A dense matrix. It owns its cells, which lie row after row in one
/// buffer, and there is exactly one cell for each position of its extent.
#[derive(Debug)]
pub struct Matrix<T> {
    data: Vec<T>,
    shape: Dim,
}

impl<T> View for Matrix<T> {
    type V = MatrixModel<T>;

    closed spec fn view(&self) -> MatrixModel<T> {
        MatrixModel {
            rows: self.shape.spec_rows() as nat,
            columns: self.shape.spec_columns() as nat,
            cells: self.data@,
        }
    }
}

impl<T> Matrix<T> {
    /// What holds of every matrix: the length of the buffer is the product
    /// of the two dimensions, and neither dimension is zero.
    #[verifier::type_invariant]
    pub open spec fn consistent(self) -> bool {
        self@.well_formed()
    }

    /// The matrix of extent `shape` whose cells are `data`.
    pub(crate) fn from_parts(data: Vec<T>, shape: Dim) -> (m: Matrix<T>)
        requires
            data@.len() == shape.spec_rows() * shape.spec_columns(),
        ensures
            m@.rows == shape.spec_rows(),
            m@.columns == shape.spec_columns(),
            m@.cells == data@,
            m@.well_formed(),
    {
        proof {
            use_type_invariant(shape);
        }
        Matrix { data, shape }
    }

    /// The extent of the matrix. Its element count is the number of cells
    /// that the matrix holds, which fits in `usize`.
    pub fn dim(&self) -> (d: Dim)
        ensures
            d.spec_rows() == self@.rows,
            d.spec_columns() == self@.columns,
            d.element_count() == self@.cells.len(),
            d.element_count() <= usize::MAX,
            self@.well_formed(),
    {
        proof {
            use_type_invariant(self);
            assert(self.data@.len() == self.data.len());
        }
        self.shape
    }

    /// The cells, row after row.
    pub fn data(&self) -> (cells: &[T])
        ensures
            cells@ == self@.cells,
            self@.well_formed(),
    {
        proof {
            use_type_invariant(self);
        }
        self.data.as_slice()
    }
}

impl<T: Copy> Matrix<T> {
    /// The matrix of extent `shape` whose cells are `data`, row after row.
    ///
    /// Refused with `InvalidShape` when a dimension is zero, and otherwise
    /// with `ShapeMismatch` when the number of values is not the product of
    /// the dimensions.
    pub fn new(data: &[T], shape: &[usize; 2]) -> (r: Result<Matrix<T>, MatrixError>)
        ensures
            r is Ok <==> shape[0] > 0 && shape[1] > 0 && data@.len() == shape[0] * shape[1],
            r matches Ok(m) ==> m@.well_formed() && m@.rows == shape[0] && m@.columns == shape[1]
                && m@.cells == data@,
            r matches Err(e) ==> e == (if shape[0] == 0 || shape[1] == 0 {
                MatrixError::InvalidShape
            } else {
                MatrixError::ShapeMismatch
            }),
    {
        let shape = match Dim::new(shape) {
            Ok(shape) => shape,
            Err(e) => {
                return Err(e);
            },
        };
        if shape.checked_total_elements() != Some(data.len()) {
            return Err(MatrixError::ShapeMismatch);
        }
        let mut cells: Vec<T> = Vec::with_capacity(data.len());
        let mut i: usize = 0;
        while i < data.len()
            invariant
                i <= data@.len(),
                cells@ == data@.take(i as int),
            decreases data@.len() - i,
        {
            cells.push(data[i]);
            i += 1;
        }
        Ok(Matrix::from_parts(cells, shape))
    }

    /// The cell at (`row`, `column`), or `None` where the matrix has no
    /// such position.
    pub fn get(&self, row: usize, column: usize) -> (cell: Option<T>)
        ensures
            cell == (if self@.has(row as int, column as int) {
                Some(self@.at(row as int, column as int))
            } else {
                None
            }),
    {
        proof {
            use_type_invariant(self);
        }
        let rows = self.shape.rows();
        let columns = self.shape.columns();
        if row < rows && column < columns {
            proof {
                lemma_offset(rows as int, columns as int, row as int, column as int);
                assert(self.data@.len() == self.data.len());
            }
            Some(self.data[row * columns + column])
        } else {
            None
        }
    }

    /// Replaces every cell by the value at its offset in `values`; the
    /// extent stays. Refused with `ShapeMismatch`, and nothing changes, when
    /// `values` does not hold one value for each cell.
    pub fn refill(&mut self, values: &[T]) -> (r: Result<(), MatrixError>)
        ensures
            r is Ok <==> values@.len() == old(self)@.cells.len(),
            r is Ok ==> final(self)@.cells == values@,
            r matches Err(e) ==> e == MatrixError::ShapeMismatch && *final(self) == *old(self),
            final(self)@.same_shape(old(self)@),
            final(self)@.well_formed(),
    {
        proof {
            use_type_invariant(&*self);
        }
        if values.len() != self.data.len() {
            return Err(MatrixError::ShapeMismatch);
        }
        let mut cells: Vec<T> = Vec::with_capacity(values.len());
        let mut i: usize = 0;
        while i < values.len()
            invariant
                i <= values@.len(),
                cells@ == values@.take(i as int),
            decreases values@.len() - i,
        {
            cells.push(values[i]);
            i += 1;
        }
        self.data = cells;
        Ok(())
    }
}

impl<T: Scalar> Matrix<T> {
    /// The matrix of extent `shape` whose every cell is zero. Refused with
    /// `InvalidShape` when a dimension is zero.
    pub fn zeros(shape: &[usize; 2]) -> (r: Result<Matrix<T>, MatrixError>)
        ensures
            r is Ok <==> shape[0] > 0 && shape[1] > 0,
            r matches Ok(m) ==> m@.well_formed() && m@.rows == shape[0] && m@.columns == shape[1]
                && forall|i: int| 0 <= i < m@.cells.len() ==> m@.cells[i] == T::zero_value(),
            r matches Err(e) ==> e == MatrixError::InvalidShape,
    {
        let shape = match Dim::new(shape) {
            Ok(shape) => shape,
            Err(e) => {
                return Err(e);
            },
        };
        let rows = shape.rows();
        let columns = shape.columns();
        let mut cells: Vec<T> = Vec::new();
        let mut row: usize = 0;
        while row < rows
            invariant
                row <= rows,
                cells@.len() == row * columns,
                forall|i: int| 0 <= i < cells@.len() ==> cells@[i] == T::zero_value(),
            decreases rows - row,
        {
            let mut column: usize = 0;
            while column < columns
                invariant
                    column <= columns,
                    cells@.len() == row * columns + column,
                    forall|i: int| 0 <= i < cells@.len() ==> cells@[i] == T::zero_value(),
                decreases columns - column,
            {
                cells.push(T::zero());
                column += 1;
            }
            assert((row + 1) * columns == row * columns + columns) by (nonlinear_arith);
            row += 1;
        }
        Ok(Matrix::from_parts(cells, shape))
    }
}

/// The transpose: the matrix of extent (columns, rows) whose cell at
/// (`c`, `r`) is the cell of `mat` at (`r`, `c`). The result has a buffer of
/// its own, and its own transpose is `mat` again.
pub fn transpose<T: Copy>(mat: &Matrix<T>) -> (t: Matrix<T>)
    ensures
        t@ == mat@.transposed(),
        t@.well_formed(),
        t@.transposed() == mat@,
{
    let shape = mat.dim();
    let cells = mat.data();
    let rows = shape.rows();
    let columns = shape.columns();
    let flipped = shape.transposed();
    let mut transposed: Vec<T> = Vec::with_capacity(cells.len());
    let mut x: usize = 0;
    while x < columns
        invariant
            x <= columns,
            mat@.well_formed(),
            cells@ == mat@.cells,
            cells@.len() <= usize::MAX,
            rows == mat@.rows,
            columns == mat@.columns,
            transposed@.len() == x * rows,
            forall|i: int|
                0 <= i < transposed@.len() ==> transposed@[i] == mat@.at(
                    i % (rows as int),
                    i / (rows as int),
                ),
        decreases columns - x,
    {
        let mut y: usize = 0;
        while y < rows
            invariant
                x < columns,
                y <= rows,
                mat@.well_formed(),
                cells@ == mat@.cells,
                cells@.len() <= usize::MAX,
                rows == mat@.rows,
                columns == mat@.columns,
                transposed@.len() == x * rows + y,
                forall|i: int|
                    0 <= i < transposed@.len() ==> transposed@[i] == mat@.at(
                        i % (rows as int),
                        i / (rows as int),
                    ),
            decreases rows - y,
        {
            proof {
                lemma_offset(rows as int, columns as int, y as int, x as int);
                lemma_offset(columns as int, rows as int, x as int, y as int);
            }
            transposed.push(cells[y * columns + x]);
            y += 1;
        }
        assert((x + 1) * rows == x * rows + rows) by (nonlinear_arith);
        x += 1;
    }
    proof {
        assert(columns * rows == rows * columns) by (nonlinear_arith);
        assert(transposed@ =~= mat@.transposed().cells);
        lemma_transpose_involution(mat@);
    }
    Matrix::from_parts(transposed, flipped)
}

} // verus!
