use vstd::prelude::*;

verus! {

/// An absolute cell of the grid; never negative.
#[derive(Clone, Copy, Debug, PartialEq, Eq, Structural)]
pub struct Coordinate {
    pub x: usize,
    pub y: usize,
}

impl Coordinate {
    pub fn new(x: usize, y: usize) -> (r: Coordinate)
        ensures
            r.x == x,
            r.y == y,
    {
        Coordinate { x, y }
    }
}

/// A signed displacement, used for piece-local geometry and for moves.
#[derive(Clone, Copy, Debug, PartialEq, Eq, Structural)]
pub struct Offset {
    pub x: isize,
    pub y: isize,
}

impl Offset {
    pub fn new(x: isize, y: isize) -> (r: Offset)
        ensures
            r.x == x,
            r.y == y,
    {
        Offset { x, y }
    }

    /// Component-wise sum of two offsets.
    pub fn plus(self, other: Offset) -> (r: Offset)
        requires
            isize::MIN <= self.x + other.x <= isize::MAX,
            isize::MIN <= self.y + other.y <= isize::MAX,
        ensures
            r.x == self.x + other.x,
            r.y == self.y + other.y,
    {
        Offset { x: self.x + other.x, y: self.y + other.y }
    }
}

} // verus!
