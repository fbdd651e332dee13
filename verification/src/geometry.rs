//! Helper `struct`s for abstracting on-screen geometry.
//!
//! Coordinates and sizes are non-negative; a rectangle's corners follow the
//! exclusive convention: the far corner is `origin + size`, one past the
//! last covered cell.

use vstd::prelude::*;
use crate::textfmt::{i32_dec_str, spec_idec};

verus! {

/// Represents a single on-screen point/coordinate pair.
#[derive(Clone, Copy, Debug, Eq, Hash, PartialEq)]
pub struct Point {
    pub x: i32,
    pub y: i32,
}

/// Both coordinates are non-negative.
pub open spec fn point_wf(p: Point) -> bool {
    p.x >= 0 && p.y >= 0
}

impl Point {
    /// Creates a new point on the specified non-negative coordinates.
    pub fn new(x: i32, y: i32) -> (r: Point)
        requires
            x >= 0,
            y >= 0,
        ensures
            r == (Point { x, y }),
            point_wf(r),
    {
        Point { x, y }
    }
}

/// A 2D size representation.
#[derive(Clone, Copy, Debug, Eq, Hash, PartialEq)]
pub struct Size {
    pub width: i32,
    pub height: i32,
}

/// Both dimensions are non-negative.
pub open spec fn size_wf(s: Size) -> bool {
    s.width >= 0 && s.height >= 0
}

/// The configuration-string rendering of a size: `<width>x<height>`.
pub open spec fn spec_size_str(s: Size) -> Seq<char> {
    spec_idec(s.width as int) + "x"@ + spec_idec(s.height as int)
}

impl Size {
    /// Creates a new non-negative size.
    pub fn new(width: i32, height: i32) -> (r: Size)
        requires
            width >= 0,
            height >= 0,
        ensures
            r == (Size { width, height }),
            size_wf(r),
    {
        Size { width, height }
    }

    /// Render the size as the configuration strings carry it: `WxH`.
    pub fn config_str(&self) -> (r: String)
        ensures
            r@ == spec_size_str(*self),
    {
        let mut s = i32_dec_str(self.width);
        s.append("x");
        let h = i32_dec_str(self.height);
        s.append(h.as_str());
        proof {
            assert(s@ =~= spec_size_str(*self));
        }
        s
    }
}

/// A rectangle, described by its four corners and a size.
#[derive(Clone, Copy, Debug, Eq, Hash, PartialEq)]
pub struct Rect {
    /// The top-left corner.
    pub top_left: Point,
    /// The top-right corner.
    pub top_right: Point,
    /// The bottom-right corner.
    pub bottom_right: Point,
    /// The bottom-left corner.
    pub bottom_left: Point,
    /// The `Rect`angle's size.
    pub size: Size,
}

/// The corners are mutually consistent with the size, far corners exclusive:
/// `top_right.x` and `bottom_right.y` are one past the last covered cell.
pub open spec fn rect_wf(r: Rect) -> bool {
    &&& point_wf(r.top_left)
    &&& size_wf(r.size)
    &&& r.top_right.x == r.top_left.x + r.size.width
    &&& r.top_right.y == r.top_left.y
    &&& r.bottom_left.x == r.top_left.x
    &&& r.bottom_left.y == r.top_left.y + r.size.height
    &&& r.bottom_right.x == r.top_left.x + r.size.width
    &&& r.bottom_right.y == r.top_left.y + r.size.height
}

/// The rectangle with the given origin and size, corners derived under the
/// exclusive far-corner convention.
pub open spec fn spec_rect_from_size(origin: Point, size: Size) -> Rect {
    Rect {
        top_left: origin,
        top_right: Point { x: (origin.x + size.width) as i32, y: origin.y },
        bottom_left: Point { x: origin.x, y: (origin.y + size.height) as i32 },
        bottom_right: Point {
            x: (origin.x + size.width) as i32,
            y: (origin.y + size.height) as i32,
        },
        size,
    }
}

impl Rect {
    /// Construct a `Rect` from its top-left corner and its size.
    ///
    /// The far corners lie at `origin + size`: `from_size(Point(10, 20),
    /// Size(30, 40))` has its top-right corner at `(40, 20)` and its
    /// bottom-right corner at `(40, 60)`.
    pub fn from_size(origin: Point, size: Size) -> (r: Rect)
        requires
            point_wf(origin),
            size_wf(size),
            origin.x + size.width <= i32::MAX,
            origin.y + size.height <= i32::MAX,
        ensures
            r == spec_rect_from_size(origin, size),
            rect_wf(r),
    {
        let top_right = Point::new(origin.x + size.width, origin.y);
        let bottom_left = Point::new(origin.x, origin.y + size.height);
        let bottom_right = Point::new(top_right.x, bottom_left.y);

        Rect { top_left: origin, top_right, bottom_left, bottom_right, size }
    }

    /// Construct a `Rect` from its top-left and bottom-right corners.
    pub fn from_points(top_left: Point, bottom_right: Point) -> (r: Rect)
        requires
            point_wf(top_left),
            point_wf(bottom_right),
            bottom_right.x >= top_left.x,
            bottom_right.y >= top_left.y,
        ensures
            r == spec_rect_from_size(
                top_left,
                Size {
                    width: (bottom_right.x - top_left.x) as i32,
                    height: (bottom_right.y - top_left.y) as i32,
                },
            ),
            rect_wf(r),
    {
        let size = Size::new(bottom_right.x - top_left.x, bottom_right.y - top_left.y);
        Rect::from_size(top_left, size)
    }

    /// Construct a `Rect` from its top-left corner and its size, values
    /// unwrapped.
    pub fn from_values(x: i32, y: i32, width: i32, height: i32) -> (r: Rect)
        requires
            x >= 0,
            y >= 0,
            width >= 0,
            height >= 0,
            x + width <= i32::MAX,
            y + height <= i32::MAX,
        ensures
            r == spec_rect_from_size(Point { x, y }, Size { width, height }),
            rect_wf(r),
    {
        let origin = Point::new(x, y);
        let size = Size::new(width, height);
        Rect::from_size(origin, size)
    }

    /// Construct a `Rect` from its top-left and bottom-right corners, values
    /// unwrapped.
    pub fn from_point_values(
        top_left_x: i32,
        top_left_y: i32,
        bottom_right_x: i32,
        bottom_right_y: i32,
    ) -> (r: Rect)
        requires
            top_left_x >= 0,
            top_left_y >= 0,
            bottom_right_x >= top_left_x,
            bottom_right_y >= top_left_y,
        ensures
            r == spec_rect_from_size(
                Point { x: top_left_x, y: top_left_y },
                Size {
                    width: (bottom_right_x - top_left_x) as i32,
                    height: (bottom_right_y - top_left_y) as i32,
                },
            ),
            rect_wf(r),
    {
        let top_left = Point::new(top_left_x, top_left_y);
        let bottom_right = Point::new(bottom_right_x, bottom_right_y);
        Rect::from_points(top_left, bottom_right)
    }
}

} // verus!
