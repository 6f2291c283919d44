//! Adapter: an old rectangle type, described by a corner and a size, is made
//! to serve the newer [`Shape`] interface.

use vstd::prelude::*;

verus! {

/// What drawing a shape covers: the corner it starts from and the corner it
/// ends at.  The coordinates are wide enough for any sum of two `i32`.
#[derive(Clone, Copy, Debug, PartialEq, Eq)]
pub struct Extent {
    pub from_x: i64,
    pub from_y: i64,
    pub to_x: i64,
    pub to_y: i64,
}

/// The unified interface.
pub trait Shape {
    /// What drawing this shape covers.
    spec fn extent(&self) -> Extent;

    /// Draws the shape and reports what was covered.
    fn draw(&self) -> (drawn: Extent)
        ensures
            drawn == self.extent(),
    ;
}

/// The rectangle of the older interface: a corner, a width and a height.
pub struct LegacyRectangle {
    pub x: i32,
    pub y: i32,
    pub width: i32,
    pub height: i32,
}

impl LegacyRectangle {
    /// From `(x, y)` to `(x + width, y + height)`.
    pub open spec fn corners(&self) -> Extent {
        Extent {
            from_x: self.x as i64,
            from_y: self.y as i64,
            to_x: (self.x + self.width) as i64,
            to_y: (self.y + self.height) as i64,
        }
    }

    /// Draws the rectangle the old way and reports its two corners.
    pub fn draw_old(&self) -> (drawn: Extent)
        ensures
            drawn == self.corners(),
            drawn.to_x == self.x + self.width,
            drawn.to_y == self.y + self.height,
    {
        Extent {
            from_x: self.x as i64,
            from_y: self.y as i64,
            to_x: self.x as i64 + self.width as i64,
            to_y: self.y as i64 + self.height as i64,
        }
    }
}

/// Adapts a [`LegacyRectangle`] to [`Shape`].
pub struct RectangleAdapter {
    pub legacy_rect: LegacyRectangle,
}

impl Shape for RectangleAdapter {
    open spec fn extent(&self) -> Extent {
        self.legacy_rect.corners()
    }

    fn draw(&self) -> (drawn: Extent) {
        self.legacy_rect.draw_old()
    }
}

} // verus!
