//! Planar vectors of words.

use vstd::prelude::*;

verus! {

/// An ordered pair of words: a state (a position in the plane), a goal or a
/// control. Two vectors are equal when their words are, bit for bit.
#[derive(Clone, Copy, Debug, PartialEq, Eq, Structural)]
pub struct Vector2 {
    /// The first coordinate.
    pub x: u64,
    /// The second coordinate.
    pub y: u64,
}

impl Vector2 {
    /// The vector with the given coordinates.
    pub fn new(x: u64, y: u64) -> (v: Vector2)
        ensures
            v == (Vector2 { x, y }),
    {
        Vector2 { x, y }
    }
}

} // verus!
