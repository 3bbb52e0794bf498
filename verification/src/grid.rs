//! Dense arrays of words, kept in `ndarray` arrays.
//!
//! Nothing in this module is proved. Each function hands one call to
//! `ndarray` and states what that call is relied on to do.

use vstd::prelude::*;

verus! {

/// A table of words with a fixed number of rows and columns, kept in an
/// `ndarray::Array2`. Its contents are known only through [`grid_rows`].
#[verifier::external_body]
pub struct Grid {
    cells: ndarray::Array2<u64>,
}

/// A one-dimensional array of words, kept in an `ndarray::Array1`. Its
/// contents are known only through [`lane_items`].
#[verifier::external_body]
pub struct Lane {
    items: ndarray::Array1<u64>,
}

/// The rows of a grid from first to last, each from its first column to its
/// last.
pub uninterp spec fn grid_rows(grid: Grid) -> Seq<Seq<u64>>;

/// The items of a one-dimensional array, in order.
pub uninterp spec fn lane_items(lane: Lane) -> Seq<u64>;

impl View for Grid {
    type V = Seq<Seq<u64>>;

    open spec fn view(&self) -> Seq<Seq<u64>> {
        grid_rows(*self)
    }
}

impl View for Lane {
    type V = Seq<u64>;

    open spec fn view(&self) -> Seq<u64> {
        lane_items(*self)
    }
}

impl Grid {
    /// `ndarray::Array2::zeros` on the shape `(rows, cols)`: a grid of that
    /// shape with the word zero in every cell. The call panics when the
    /// number of cells exceeds `isize::MAX`, and the allocation behind it
    /// when their bytes do; both are left out.
    #[verifier::external_body]
    pub(crate) fn zeros(rows: usize, cols: usize) -> (grid: Grid)
        requires
            0 < rows,
            0 < cols,
            rows * cols * 8 <= isize::MAX,
        ensures
            grid_rows(grid) == Seq::new(rows as nat, |i: int| Seq::new(cols as nat, |j: int| 0u64)),
    {
        Grid { cells: ndarray::Array2::zeros((rows, cols)) }
    }

    /// `ndarray::ArrayBase::nrows`: the number of rows.
    #[verifier::external_body]
    pub(crate) fn nrows(&self) -> (n: usize)
        ensures
            n == grid_rows(*self).len(),
    {
        self.cells.nrows()
    }

    /// `ndarray::ArrayBase::row_mut` followed by `ndarray::ArrayBase::assign`:
    /// row `index` takes the items of `row`, and every other row stays as it
    /// is. `row_mut` panics on an index past the last row. `assign` broadcasts
    /// a source of another length or panics; with the lengths equal it copies
    /// item by item and cannot panic.
    #[verifier::external_body]
    pub(crate) fn assign_row(&mut self, index: usize, row: &Lane)
        requires
            index < grid_rows(*old(self)).len(),
            lane_items(*row).len() == grid_rows(*old(self))[index as int].len(),
        ensures
            grid_rows(*final(self)) == grid_rows(*old(self)).update(index as int, lane_items(*row)),
        no_unwind
    {
        self.cells.row_mut(index).assign(&row.items);
    }

    /// `ndarray::ArrayBase::row` and an index into the view it returns: the
    /// word in row `row` and column `col`. Either step panics on an index out
    /// of bounds.
    #[verifier::external_body]
    pub(crate) fn get(&self, row: usize, col: usize) -> (word: u64)
        requires
            row < grid_rows(*self).len(),
            col < grid_rows(*self)[row as int].len(),
        ensures
            word == grid_rows(*self)[row as int][col as int],
    {
        self.cells.row(row)[col]
    }

    /// `ndarray::ArrayBase::column` followed by `ndarray::ArrayBase::to_owned`:
    /// the items of column `index`, from the first row to the last. `column`
    /// panics on an index past the last column.
    #[verifier::external_body]
    pub(crate) fn column(&self, index: usize) -> (lane: Lane)
        requires
            0 < grid_rows(*self).len(),
            forall|i: int| 0 <= i < grid_rows(*self).len() ==> index < (#[trigger] grid_rows(*self)[i]).len(),
        ensures
            lane_items(lane) == Seq::new(
                grid_rows(*self).len(),
                |i: int| grid_rows(*self)[i][index as int],
            ),
    {
        Lane { items: self.cells.column(index).to_owned() }
    }
}

impl Lane {
    /// `ndarray::ArrayBase::from_vec`: the one-dimensional array that holds
    /// the items of `items`, in order.
    #[verifier::external_body]
    pub(crate) fn from_vec(items: Vec<u64>) -> (lane: Lane)
        ensures
            lane_items(lane) == items@,
    {
        Lane { items: ndarray::Array1::from_vec(items) }
    }

    /// `ndarray::ArrayBase::to_vec`: the items of the array, in order.
    #[verifier::external_body]
    pub(crate) fn to_vec(&self) -> (items: Vec<u64>)
        ensures
            items@ == lane_items(*self),
    {
        self.items.to_vec()
    }
}

} // verus!
