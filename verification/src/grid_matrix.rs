//! Boolean matrices, held in nalgebra's `DMatrix<bool>`, as the terrain uses
//! them to mark which grid cells carry an edge.

use vstd::prelude::*;
use nalgebra::DMatrix;

verus! {

/// A boolean matrix. The nalgebra matrix is held privately; what it holds is
/// described by `bool_matrix_cells` and `bool_matrix_shape`.
#[verifier::external_body]
pub struct BoolMatrix {
    inner: DMatrix<bool>,
}

/// What a boolean matrix holds: the value at `(row, column)` for every cell
/// inside its shape, and no other key.
pub uninterp spec fn bool_matrix_cells(m: BoolMatrix) -> Map<(int, int), bool>;

/// The shape `(rows, columns)` that a boolean matrix was made with.
pub uninterp spec fn bool_matrix_shape(m: BoolMatrix) -> (nat, nat);

/// The cells of a `rows` by `cols` matrix filled with `value`.
pub open spec fn filled_cells(rows: nat, cols: nat, value: bool) -> Map<(int, int), bool> {
    Map::new(|k: (int, int)| 0 <= k.0 < rows && 0 <= k.1 < cols, |k: (int, int)| value)
}

impl BoolMatrix {
    /// Calls `DMatrix::from_element(rows, cols, value)`. Trusted: nalgebra
    /// makes a `rows` by `cols` matrix with every cell set to `value`. The
    /// element count must fit a `Vec` of bytes (at most `isize::MAX`).
    #[verifier::external_body]
    pub(crate) fn from_element(rows: usize, cols: usize, value: bool) -> (m: BoolMatrix)
        requires
            rows * cols <= isize::MAX,
        ensures
            bool_matrix_shape(m) == (rows as nat, cols as nat),
            bool_matrix_cells(m) == filled_cells(rows as nat, cols as nat, value),
    {
        BoolMatrix { inner: DMatrix::from_element(rows, cols, value) }
    }

    /// Calls `m[(row, col)] = value` through nalgebra's `IndexMut`. Trusted:
    /// the shape is kept and only cell `(row, col)` changes. nalgebra panics
    /// on an index outside the shape, which `requires` excludes.
    #[verifier::external_body]
    pub(crate) fn set(&mut self, row: usize, col: usize, value: bool)
        requires
            row < bool_matrix_shape(*old(self)).0,
            col < bool_matrix_shape(*old(self)).1,
        ensures
            bool_matrix_shape(*final(self)) == bool_matrix_shape(*old(self)),
            bool_matrix_cells(*final(self)) == bool_matrix_cells(*old(self)).insert(
                (row as int, col as int),
                value,
            ),
    {
        self.inner[(row, col)] = value;
    }

    /// Reads `m[(row, col)]` through nalgebra's `Index`. Trusted: it returns
    /// the value held at that cell; nalgebra panics outside the shape, which
    /// `requires` excludes.
    #[verifier::external_body]
    pub(crate) fn get(&self, row: usize, col: usize) -> (value: bool)
        requires
            row < bool_matrix_shape(*self).0,
            col < bool_matrix_shape(*self).1,
        ensures
            value == bool_matrix_cells(*self)[(row as int, col as int)],
    {
        self.inner[(row, col)]
    }

    /// Calls `DMatrix::shape`. Trusted: it returns the `(rows, columns)` that
    /// the matrix was made with.
    #[verifier::external_body]
    pub(crate) fn shape(&self) -> (s: (usize, usize))
        ensures
            s.0 as nat == bool_matrix_shape(*self).0,
            s.1 as nat == bool_matrix_shape(*self).1,
    {
        self.inner.shape()
    }

    /// The value at `(row, col)`, or `None` outside the matrix.
    pub fn cell(&self, row: usize, col: usize) -> (value: Option<bool>)
        ensures
            value is Some <==> row < bool_matrix_shape(*self).0 && col < bool_matrix_shape(*self).1,
            value matches Some(v) ==> v == bool_matrix_cells(*self)[(row as int, col as int)],
    {
        let (rows, cols) = self.shape();
        if row < rows && col < cols {
            Some(self.get(row, col))
        } else {
            None
        }
    }
}

} // verus!
