//! What an archive of a trajectory holds.
//!
//! An archive stores three arrays, each under a name of its own: the whole
//! buffer and, for convenience, each of its two columns. This module decides
//! names, shapes, order and contents; writing them to a file is left to the
//! caller.

use vstd::prelude::*;
use crate::trajectory::{row_major, xs_of, ys_of, Trajectory};
use crate::vector::Vector2;

verus! {

/// The arrays of an archive.
#[derive(Clone, Copy, Debug, PartialEq, Eq, Structural)]
pub enum ArrayName {
    /// The whole buffer, one row to a state.
    Trajectory,
    /// Column 0 of the buffer.
    X,
    /// Column 1 of the buffer.
    Y,
}

impl ArrayName {
    /// The name that the array is stored under.
    pub open spec fn text(self) -> Seq<char> {
        match self {
            ArrayName::Trajectory => "trajectory"@,
            ArrayName::X => "x"@,
            ArrayName::Y => "y"@,
        }
    }

    /// The name that the array is stored under.
    pub fn as_str(&self) -> (name: &'static str)
        ensures
            name@ == self.text(),
    {
        match self {
            ArrayName::Trajectory => "trajectory",
            ArrayName::X => "x",
            ArrayName::Y => "y",
        }
    }
}

/// One array of an archive: its name, the length of each of its axes, and
/// its words in row-major order.
pub struct ArchiveEntry {
    /// Which array this is.
    pub name: ArrayName,
    /// The length of each axis, outermost first.
    pub shape: Vec<usize>,
    /// The items, with the last axis varying fastest.
    pub words: Vec<u64>,
}

/// `entries` is the archive of `rows`: the buffer under `trajectory` with
/// shape `(rows, 2)`, then column 0 under `x` and column 1 under `y`, each
/// with shape `(rows)`.
pub open spec fn is_archive_of(entries: Seq<ArchiveEntry>, rows: Seq<Vector2>) -> bool {
    &&& entries.len() == 3
    &&& entries[0].name == ArrayName::Trajectory
    &&& entries[0].shape@.len() == 2
    &&& entries[0].shape@[0] == rows.len()
    &&& entries[0].shape@[1] == 2
    &&& entries[0].words@ == row_major(rows)
    &&& entries[1].name == ArrayName::X
    &&& entries[1].shape@.len() == 1
    &&& entries[1].shape@[0] == rows.len()
    &&& entries[1].words@ == xs_of(rows)
    &&& entries[2].name == ArrayName::Y
    &&& entries[2].shape@.len() == 1
    &&& entries[2].shape@[0] == rows.len()
    &&& entries[2].words@ == ys_of(rows)
}

/// The arrays that an archive of `history` holds, in the order in which they
/// are stored. The two columns repeat what the buffer holds: item `i` of `x`
/// is the word in row `i`, column 0, and item `i` of `y` the word in row `i`,
/// column 1.
pub fn archive_entries(history: &Trajectory) -> (entries: Vec<ArchiveEntry>)
    ensures
        is_archive_of(entries@, history@),
        forall|i: int|
            0 <= i < history@.len() ==> {
                &&& entries@[1].words@[i] == #[trigger] entries@[0].words@[2 * i]
                &&& entries@[2].words@[i] == entries@[0].words@[2 * i + 1]
            },
{
    let n: usize = history.len();
    let mut grid_shape: Vec<usize> = Vec::with_capacity(2);
    grid_shape.push(n);
    grid_shape.push(2);
    let mut x_shape: Vec<usize> = Vec::with_capacity(1);
    x_shape.push(n);
    let mut y_shape: Vec<usize> = Vec::with_capacity(1);
    y_shape.push(n);
    let mut entries: Vec<ArchiveEntry> = Vec::with_capacity(3);
    entries.push(ArchiveEntry { name: ArrayName::Trajectory, shape: grid_shape, words: history.words() });
    entries.push(ArchiveEntry { name: ArrayName::X, shape: x_shape, words: history.xs() });
    entries.push(ArchiveEntry { name: ArrayName::Y, shape: y_shape, words: history.ys() });
    entries
}

} // verus!
