//! Plain two-dimensional coordinates.

use vstd::prelude::*;

verus! {

/// A point in whole units.
#[derive(Debug, Clone, Copy, PartialEq, Eq, Structural)]
pub struct Vector2D {
    pub x: i64,
    pub y: i64,
}

impl Default for Vector2D {
    /// The origin.
    fn default() -> (origin: Vector2D)
        ensures
            origin.x == 0,
            origin.y == 0,
    {
        Vector2D { x: 0, y: 0 }
    }
}

} // verus!
