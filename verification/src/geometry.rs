//! Integer 2D points and the board-bounds test.

use vstd::prelude::*;

verus! {

/// Board width in columns.
pub const WIDTH: i32 = 10;

/// Board height in rows.
pub const HEIGHT: i32 = 20;

/// An integer coordinate pair: either an offset relative to a piece's pivot
/// or an absolute board position (x is the column, y is the row).
#[derive(Clone, Copy, Debug, PartialEq, Eq, Structural)]
pub struct Point {
    pub x: i32,
    pub y: i32,
}

impl Point {
    /// Componentwise sum of two points.
    pub fn add(self, other: Point) -> (r: Point)
        requires
            i32::MIN <= self.x + other.x <= i32::MAX,
            i32::MIN <= self.y + other.y <= i32::MAX,
        ensures
            r.x == self.x + other.x,
            r.y == self.y + other.y,
    {
        Point { x: self.x + other.x, y: self.y + other.y }
    }
}

/// True iff the coordinates (x column, y row) lie on the visible board.
pub open spec fn spec_inside_screen(x: int, y: int) -> bool {
    0 <= x < WIDTH as int && 0 <= y < HEIGHT as int
}

/// Check whether a point is inside the game screen.
pub fn inside_screen(p: &Point) -> (r: bool)
    ensures
        r == spec_inside_screen(p.x as int, p.y as int),
{
    p.y >= 0 && p.y < HEIGHT && p.x >= 0 && p.x < WIDTH
}

} // verus!
