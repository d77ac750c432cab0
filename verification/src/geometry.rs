//! Integer pixel geometry: points, rectangles and the hit test that every
//! widget uses to decide whether the pointer is over it.

use vstd::prelude::*;

verus! {

/// A position in pixels.
#[derive(Clone, Copy, Debug, PartialEq, Eq, Structural)]
pub struct Point {
    pub x: i32,
    pub y: i32,
}

/// An axis-aligned rectangle in pixels. A rectangle whose width or height is
/// not positive contains no point.
#[derive(Clone, Copy, Debug, PartialEq, Eq, Structural)]
pub struct Rect {
    pub x: i32,
    pub y: i32,
    pub width: i32,
    pub height: i32,
}

impl Point {
    /// The point `x` pixels right of and `y` pixels below the origin.
    pub fn new(x: i32, y: i32) -> (p: Point)
        ensures
            p == (Point { x, y }),
    {
        Point { x, y }
    }
}

impl Rect {
    /// The rectangle with its top left corner at `x`, `y`.
    pub fn new(x: i32, y: i32, width: i32, height: i32) -> (r: Rect)
        ensures
            r == (Rect { x, y, width, height }),
    {
        Rect { x, y, width, height }
    }

    /// The points of the rectangle: the left and top edges belong to it, the
    /// right and bottom edges do not.
    pub open spec fn contains(self, p: Point) -> bool {
        &&& self.x <= p.x < self.x + self.width
        &&& self.y <= p.y < self.y + self.height
    }

    /// Whether `point` lies in the rectangle.
    pub fn check_collision_point_rec(&self, point: Point) -> (hit: bool)
        ensures
            hit == self.contains(point),
    {
        let px: i64 = point.x as i64;
        let py: i64 = point.y as i64;
        let left: i64 = self.x as i64;
        let top: i64 = self.y as i64;
        let right: i64 = left + self.width as i64;
        let bottom: i64 = top + self.height as i64;
        px >= left && px < right && py >= top && py < bottom
    }

}

/// The share `part / whole` of `total`, rounded down.
pub fn scale(part: u64, whole: u64, total: u64) -> (scaled: u64)
    requires
        part <= whole,
        0 < whole,
    ensures
        scaled == (part * total) / (whole as int),
        scaled <= total,
{
    assert(part * total <= 0xffff_ffff_ffff_ffff * 0xffff_ffff_ffff_ffff) by (nonlinear_arith)
        requires
            0 <= part <= 0xffff_ffff_ffff_ffff,
            0 <= total <= 0xffff_ffff_ffff_ffff,
    ;
    let product: u128 = (part as u128) * (total as u128);
    let scaled: u128 = product / (whole as u128);
    assert(scaled <= total) by (nonlinear_arith)
        requires
            scaled == (part * total) / (whole as int),
            part <= whole,
            0 < whole,
            0 <= total,
    ;
    scaled as u64
}

} // verus!
