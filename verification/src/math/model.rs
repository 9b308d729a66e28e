//! Matrices as mathematical values, the operations on them, and the laws
//! that the operations obey.

use crate::math::scalar::Scalar;
use vstd::arithmetic::div_mod::lemma_fundamental_div_mod_converse;
use vstd::prelude::*;

verus! {

/// A matrix as a mathematical value: its extent, and its cells in row-major
/// order.
pub struct MatrixModel<T> {
    pub rows: nat,
    pub columns: nat,
    pub cells: Seq<T>,
}

impl<T> MatrixModel<T> {
    /// Both dimensions are positive and there is one cell for each position.
    pub open spec fn well_formed(self) -> bool {
        &&& self.rows > 0
        &&& self.columns > 0
        &&& self.cells.len() == self.rows * self.columns
    }

    /// Whether (`row`, `column`) is a position of the matrix.
    pub open spec fn has(self, row: int, column: int) -> bool {
        0 <= row < self.rows && 0 <= column < self.columns
    }

    /// Whether the two matrices have the same extent.
    pub open spec fn same_shape(self, other: MatrixModel<T>) -> bool {
        self.rows == other.rows && self.columns == other.columns
    }

    /// The cell at (`row`, `column`): row-major, at offset `row * columns + column`.
    pub open spec fn at(self, row: int, column: int) -> T {
        self.cells[row * self.columns + column]
    }

    /// The cells of row `row`, left to right.
    pub open spec fn row(self, row: int) -> Seq<T> {
        self.cells.subrange(row * self.columns, (row + 1) * self.columns)
    }

    /// The cells of column `column`, top to bottom.
    pub open spec fn column(self, column: int) -> Seq<T> {
        Seq::new(self.rows, |r: int| self.at(r, column))
    }

    /// The matrix with rows and columns exchanged: its cell at (`c`, `r`) is
    /// the cell of `self` at (`r`, `c`).
    pub open spec fn transposed(self) -> MatrixModel<T> {
        MatrixModel {
            rows: self.columns,
            columns: self.rows,
            cells: Seq::new(
                self.cells.len(),
                |i: int| self.at(i % (self.rows as int), i / (self.rows as int)),
            ),
        }
    }
}

/// The sum of the first `n` products `a[i] * b[i]`, added in the order of
/// their index to a sum that starts at zero.
pub open spec fn partial_inner_product<T: Scalar>(a: Seq<T>, b: Seq<T>, n: nat) -> T
    decreases n,
{
    if n == 0 {
        T::zero_value()
    } else {
        partial_inner_product(a, b, (n - 1) as nat).sum(a[n - 1].product(b[n - 1]))
    }
}

/// The inner product of two sequences of one length.
pub open spec fn inner_product<T: Scalar>(a: Seq<T>, b: Seq<T>) -> T {
    partial_inner_product(a, b, a.len())
}

impl<T: Scalar> MatrixModel<T> {
    /// The matrix product: the cell at (`i`, `j`) is the inner product of row
    /// `i` of `self` and column `j` of `rhs`.
    pub open spec fn times(self, rhs: MatrixModel<T>) -> MatrixModel<T> {
        MatrixModel {
            rows: self.rows,
            columns: rhs.columns,
            cells: Seq::new(
                self.rows * rhs.columns,
                |i: int|
                    inner_product(
                        self.row(i / (rhs.columns as int)),
                        rhs.column(i % (rhs.columns as int)),
                    ),
            ),
        }
    }

    /// Every cell with `scalar` added to it.
    pub open spec fn plus_scalar(self, scalar: T) -> MatrixModel<T> {
        MatrixModel {
            rows: self.rows,
            columns: self.columns,
            cells: Seq::new(self.cells.len(), |i: int| self.cells[i].sum(scalar)),
        }
    }

    /// Every cell with `scalar` taken from it.
    pub open spec fn minus_scalar(self, scalar: T) -> MatrixModel<T> {
        MatrixModel {
            rows: self.rows,
            columns: self.columns,
            cells: Seq::new(self.cells.len(), |i: int| self.cells[i].difference(scalar)),
        }
    }

    /// The cell-by-cell sum with a matrix of the same extent.
    pub open spec fn plus(self, rhs: MatrixModel<T>) -> MatrixModel<T> {
        MatrixModel {
            rows: self.rows,
            columns: self.columns,
            cells: Seq::new(self.cells.len(), |i: int| self.cells[i].sum(rhs.cells[i])),
        }
    }
}

/// In a row of `columns` cells, the offset `row * columns + column` lies
/// below `rows * columns`, and dividing it by `columns` gives back the row
/// and the column.
pub proof fn lemma_offset(rows: int, columns: int, row: int, column: int)
    requires
        0 <= row < rows,
        0 <= column < columns,
    ensures
        0 <= row * columns + column < rows * columns,
        (row * columns + column) / columns == row,
        (row * columns + column) % columns == column,
{
    assert(0 <= row * columns && (row + 1) * columns <= rows * columns) by (nonlinear_arith)
        requires
            0 <= row < rows,
            0 < columns,
    ;
    assert((row + 1) * columns == row * columns + columns) by (nonlinear_arith);
    lemma_fundamental_div_mod_converse(row * columns + column, columns, row, column);
}

/// An offset below `rows * columns` is that of exactly one position.
pub proof fn lemma_position(rows: int, columns: int, offset: int)
    requires
        0 < columns,
        0 <= offset < rows * columns,
    ensures
        0 <= offset / columns < rows,
        0 <= offset % columns < columns,
        offset == (offset / columns) * columns + offset % columns,
{
    let q = offset / columns;
    let r = offset % columns;
    assert(offset == q * columns + r && 0 <= r < columns) by (nonlinear_arith)
        requires
            q == offset / columns,
            r == offset % columns,
            0 < columns,
    ;
    assert(0 <= q < rows) by (nonlinear_arith)
        requires
            offset == q * columns + r,
            0 <= r < columns,
            0 <= offset < rows * columns,
    ;
}

/// Row `row` of a matrix has one cell for each column, and its cell at
/// `column` is the cell of the matrix at (`row`, `column`).
pub proof fn lemma_row<T>(m: MatrixModel<T>, row: int)
    requires
        m.well_formed(),
        0 <= row < m.rows,
    ensures
        m.row(row).len() == m.columns,
        forall|column: int| 0 <= column < m.columns ==> #[trigger] m.row(row)[column] == m.at(row, column),
{
    let columns = m.columns as int;
    assert(0 <= row * columns && (row + 1) * columns <= m.rows * columns) by (nonlinear_arith)
        requires
            0 <= row < m.rows,
            0 < columns,
    ;
    assert((row + 1) * columns == row * columns + columns) by (nonlinear_arith);
}

/// The transpose of a matrix is a matrix, and its cell at (`column`, `row`)
/// is the cell of the matrix at (`row`, `column`).
pub proof fn lemma_transposed_cell<T>(m: MatrixModel<T>, row: int, column: int)
    requires
        m.well_formed(),
        m.has(row, column),
    ensures
        m.transposed().well_formed(),
        m.transposed().has(column, row),
        m.transposed().at(column, row) == m.at(row, column),
{
    assert(m.columns * m.rows == m.rows * m.columns) by (nonlinear_arith);
    lemma_offset(m.columns as int, m.rows as int, column, row);
}

/// Transposing twice gives the matrix back, whatever its extent.
pub proof fn lemma_transpose_involution<T>(m: MatrixModel<T>)
    requires
        m.well_formed(),
    ensures
        m.transposed().transposed() == m,
{
    let t = m.transposed();
    let tt = t.transposed();
    assert(m.columns * m.rows == m.rows * m.columns) by (nonlinear_arith);
    assert forall|i: int| 0 <= i < m.cells.len() implies tt.cells[i] == m.cells[i] by {
        lemma_position(m.rows as int, m.columns as int, i);
        let row = i / (m.columns as int);
        let column = i % (m.columns as int);
        lemma_transposed_cell(m, row, column);
    }
    assert(tt.cells =~= m.cells);
}

/// The product of an `m` by `k` matrix and a `k` by `n` matrix is an `m` by
/// `n` matrix, whose cell at (`row`, `column`) is the inner product of row
/// `row` of the left and column `column` of the right.
pub proof fn lemma_times_cell<T: Scalar>(
    a: MatrixModel<T>,
    b: MatrixModel<T>,
    row: int,
    column: int,
)
    requires
        a.well_formed(),
        b.well_formed(),
        a.columns == b.rows,
        0 <= row < a.rows,
        0 <= column < b.columns,
    ensures
        a.times(b).well_formed(),
        a.times(b).at(row, column) == inner_product(a.row(row), b.column(column)),
{
    lemma_offset(a.rows as int, b.columns as int, row, column);
}

/// Addition of matrices of one extent does not depend on the order of the
/// operands.
pub proof fn lemma_plus_commutes<T: Scalar>(a: MatrixModel<T>, b: MatrixModel<T>)
    requires
        a.well_formed(),
        b.well_formed(),
        a.same_shape(b),
    ensures
        a.plus(b) == b.plus(a),
{
    assert forall|i: int| 0 <= i < a.cells.len() implies a.plus(b).cells[i] == b.plus(a).cells[i] by {
        T::sum_commutes(a.cells[i], b.cells[i]);
    }
    assert(a.plus(b).cells =~= b.plus(a).cells);
}

/// Over 64-bit integers with wrapping arithmetic, adding a scalar to every
/// cell and then taking the same scalar from every cell gives the matrix back.
pub proof fn lemma_plus_minus_scalar(m: MatrixModel<i64>, scalar: i64)
    ensures
        m.plus_scalar(scalar).minus_scalar(scalar) == m,
{
    assert(m.plus_scalar(scalar).minus_scalar(scalar).cells =~= m.cells);
}

} // verus!
