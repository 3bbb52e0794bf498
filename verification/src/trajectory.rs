//! The trajectory buffer.

use vstd::prelude::*;
use crate::grid::{Grid, Lane};
use crate::vector::Vector2;

verus! {

/// The largest number of rows that a trajectory can be given: two words to a
/// row, eight bytes to a word, and no more than `isize::MAX` bytes in all.
pub open spec fn max_rows() -> nat {
    (isize::MAX / 16) as nat
}

/// The number of steps that a run must stay under to fit a buffer.
pub fn step_limit() -> (limit: usize)
    ensures
        limit == max_rows(),
{
    (isize::MAX as usize) / 16
}

/// The rows of a buffer that has just been allocated for `num_steps` steps:
/// `start` in row 0 and zero in the `num_steps` rows after it.
pub open spec fn initial_rows(start: Vector2, num_steps: nat) -> Seq<Vector2> {
    Seq::new(num_steps + 1, |i: int| if i == 0 { start } else { Vector2 { x: 0, y: 0 } })
}

/// The x coordinates of `rows`, in order.
pub open spec fn xs_of(rows: Seq<Vector2>) -> Seq<u64> {
    Seq::new(rows.len(), |i: int| rows[i].x)
}

/// The y coordinates of `rows`, in order.
pub open spec fn ys_of(rows: Seq<Vector2>) -> Seq<u64> {
    Seq::new(rows.len(), |i: int| rows[i].y)
}

/// The words of `rows` in row-major order: x then y of row 0, x then y of
/// row 1, and so on.
pub open spec fn row_major(rows: Seq<Vector2>) -> Seq<u64> {
    Seq::new(2 * rows.len(), |k: int| if k % 2 == 0 { rows[k / 2].x } else { rows[k / 2].y })
}

/// A buffer of states, one to a row: column 0 holds the x coordinates,
/// column 1 the y coordinates. In the buffer that a simulation returns, row 0
/// is the initial state and row `k` the state after `k` steps.
///
/// A buffer is allocated once, with all its rows, and never grows: it has at
/// least one row and at most [`max_rows`].
pub struct Trajectory {
    grid: Grid,
}

impl View for Trajectory {
    type V = Seq<Vector2>;

    closed spec fn view(&self) -> Seq<Vector2> {
        Seq::new(self.grid@.len(), |i: int| Vector2 { x: self.grid@[i][0], y: self.grid@[i][1] })
    }
}

impl Trajectory {
    #[verifier::type_invariant]
    spec fn well_formed(&self) -> bool {
        &&& 0 < self.grid@.len() <= max_rows()
        &&& forall|i: int| 0 <= i < self.grid@.len() ==> (#[trigger] self.grid@[i]).len() == 2
    }

    /// A buffer for a run of `num_steps` steps: `num_steps + 1` rows, the
    /// first of them `start`, the others zero.
    pub fn with_start(start: Vector2, num_steps: usize) -> (history: Trajectory)
        requires
            num_steps < max_rows(),
        ensures
            history@ == initial_rows(start, num_steps as nat),
    {
        let mut grid = Grid::zeros(num_steps + 1, 2);
        let mut items: Vec<u64> = Vec::with_capacity(2);
        items.push(start.x);
        items.push(start.y);
        grid.assign_row(0, &Lane::from_vec(items));
        let history = Trajectory { grid };
        assert(history@ =~= initial_rows(start, num_steps as nat));
        history
    }

    /// The number of rows, one more than the number of steps.
    pub fn len(&self) -> (n: usize)
        ensures
            n == self@.len(),
            0 < n <= max_rows(),
    {
        proof {
            use_type_invariant(self);
        }
        self.grid.nrows()
    }

    /// The state in row `index`.
    pub fn row(&self, index: usize) -> (state: Vector2)
        requires
            index < self@.len(),
        ensures
            state == self@[index as int],
    {
        proof {
            use_type_invariant(self);
        }
        Vector2 { x: self.grid.get(index, 0), y: self.grid.get(index, 1) }
    }

    /// Writes `state` into row `index` and leaves every other row as it is.
    pub fn set_row(&mut self, index: usize, state: Vector2)
        requires
            index < old(self)@.len(),
        ensures
            final(self)@ == old(self)@.update(index as int, state),
    {
        proof {
            use_type_invariant(&*self);
        }
        let mut items: Vec<u64> = Vec::with_capacity(2);
        items.push(state.x);
        items.push(state.y);
        self.grid.assign_row(index, &Lane::from_vec(items));
        assert(self@ =~= old(self)@.update(index as int, state));
    }

    /// The words of column `index`, from the first row to the last.
    fn column_words(&self, index: usize) -> (column: Vec<u64>)
        requires
            index < 2,
        ensures
            column@.len() == self@.len(),
            forall|i: int|
                0 <= i < self@.len() ==> column@[i] == (if index == 0 {
                    (#[trigger] self@[i]).x
                } else {
                    self@[i].y
                }),
    {
        proof {
            use_type_invariant(self);
        }
        self.grid.column(index).to_vec()
    }

    /// Column 0: the x coordinate of every row, in order.
    pub fn xs(&self) -> (column: Vec<u64>)
        ensures
            column@ == xs_of(self@),
    {
        let column = self.column_words(0);
        assert(column@ =~= xs_of(self@));
        column
    }

    /// Column 1: the y coordinate of every row, in order.
    pub fn ys(&self) -> (column: Vec<u64>)
        ensures
            column@ == ys_of(self@),
    {
        let column = self.column_words(1);
        assert(column@ =~= ys_of(self@));
        column
    }

    /// The whole buffer in row-major order.
    pub fn words(&self) -> (words: Vec<u64>)
        ensures
            words@ == row_major(self@),
    {
        let n: usize = self.len();
        let mut words: Vec<u64> = Vec::with_capacity(2 * n);
        for i in 0..n
            invariant
                n == self@.len(),
                words@ == row_major(self@.take(i as int)),
        {
            let state = self.row(i);
            words.push(state.x);
            words.push(state.y);
            assert(words@ =~= row_major(self@.take(i + 1)));
        }
        assert(self@.take(n as int) =~= self@);
        words
    }

    /// The last row: the state that the run ends in.
    pub fn final_state(&self) -> (state: Vector2)
        ensures
            state == self@.last(),
    {
        let n: usize = self.len();
        self.row(n - 1)
    }
}

} // verus!
