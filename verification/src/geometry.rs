//! Integer points and non-empty rectangles with saturating coordinates.
//!
//! Coordinates made by the constructors stay within
//! [`MIN_COORD`]..=[`MAX_COORD`] and extents within `1..=`[`MAX_EXTENT`], so
//! that the far edges of a rectangle always fit in an `i32`.

use vstd::prelude::*;

verus! {

/// Largest coordinate a constructor keeps.
pub const MAX_COORD: i32 = 0x3fff_ffff;

/// Smallest coordinate a constructor keeps.
pub const MIN_COORD: i32 = -0x4000_0000;

/// Largest width or height of a rectangle.
pub const MAX_EXTENT: u32 = 0x3fff_ffff;

/// `v` pulled into `MIN_COORD..=MAX_COORD`.
pub open spec fn clamp_coord(v: int) -> int {
    if v > MAX_COORD {
        MAX_COORD as int
    } else if v < MIN_COORD {
        MIN_COORD as int
    } else {
        v
    }
}

/// `v` pulled into `1..=MAX_EXTENT`.
pub open spec fn clamp_extent(v: int) -> int {
    if v <= 0 {
        1
    } else if v > MAX_EXTENT {
        MAX_EXTENT as int
    } else {
        v
    }
}

/// Saturates a coordinate.
pub fn clamp_position(val: i32) -> (r: i32)
    ensures
        r == clamp_coord(val as int),
{
    if val > MAX_COORD {
        MAX_COORD
    } else if val < MIN_COORD {
        MIN_COORD
    } else {
        val
    }
}

/// Saturates a width or height; zero becomes one.
pub fn clamp_size(val: u32) -> (r: u32)
    ensures
        r == clamp_extent(val as int),
{
    if val == 0 {
        1
    } else if val > MAX_EXTENT {
        MAX_EXTENT
    } else {
        val
    }
}

/// A position or a displacement on the integer grid.
///
/// The fields are public and may hold any `i32`; only the constructors
/// saturate.
#[derive(Clone, Copy, Debug, PartialEq, Eq, Structural)]
pub struct Point {
    pub x: i32,
    pub y: i32,
}

impl Point {
    /// The point with both coordinates saturated.
    pub open spec fn spec_new(x: int, y: int) -> Point {
        Point { x: clamp_coord(x) as i32, y: clamp_coord(y) as i32 }
    }

    /// This point moved by `(dx, dy)`, computed without overflow and then
    /// saturated.
    pub open spec fn spec_offset(self, dx: int, dy: int) -> Point {
        Point::spec_new(self.x + dx, self.y + dy)
    }

    /// Both coordinates lie within `MIN_COORD..=MAX_COORD`.
    pub open spec fn in_range(self) -> bool {
        MIN_COORD <= self.x <= MAX_COORD && MIN_COORD <= self.y <= MAX_COORD
    }

    /// The point `(x, y)`, each coordinate saturated.
    pub fn new(x: i32, y: i32) -> (p: Point)
        ensures
            p == Point::spec_new(x as int, y as int),
            p.in_range(),
    {
        Point { x: clamp_position(x), y: clamp_position(y) }
    }

    /// Moves the point by `(dx, dy)`; a sum that leaves the `i32` range
    /// saturates like any other.
    pub fn offset(self, dx: i32, dy: i32) -> (p: Point)
        ensures
            p == self.spec_offset(dx as int, dy as int),
            p.in_range(),
    {
        let x: i32 = match self.x.checked_add(dx) {
            Some(val) => val,
            None => if dx < 0 { MIN_COORD } else { MAX_COORD },
        };
        let y: i32 = match self.y.checked_add(dy) {
            Some(val) => val,
            None => if dy < 0 { MIN_COORD } else { MAX_COORD },
        };
        Point::new(x, y)
    }

    /// The sum of two points, saturated.
    pub fn plus(self, rhs: Point) -> (p: Point)
        ensures
            p == self.spec_offset(rhs.x as int, rhs.y as int),
            p.in_range(),
    {
        self.offset(rhs.x, rhs.y)
    }
}

/// What a [`Rect`] is: its top-left corner and its extents.
pub struct RectView {
    pub x: int,
    pub y: int,
    pub width: int,
    pub height: int,
}

impl RectView {
    /// The x-coordinate of the left edge.
    pub open spec fn left(self) -> int {
        self.x
    }

    /// The x-coordinate just past the right edge.
    pub open spec fn right(self) -> int {
        self.x + self.width
    }

    /// The y-coordinate of the top edge.
    pub open spec fn top(self) -> int {
        self.y
    }

    /// The y-coordinate just past the bottom edge.
    pub open spec fn bottom(self) -> int {
        self.y + self.height
    }

    /// The rectangle `Rect::new` makes of these arguments.
    pub open spec fn cornered(x: int, y: int, width: int, height: int) -> RectView {
        RectView {
            x: clamp_coord(x),
            y: clamp_coord(y),
            width: clamp_extent(width),
            height: clamp_extent(height),
        }
    }

    /// The rectangle `Rect::from_center` makes of these arguments: the
    /// extents are saturated first, then the corner is placed half an extent
    /// (rounded down) up and left of the saturated centre, and saturated again.
    pub open spec fn centered(cx: int, cy: int, width: int, height: int) -> RectView {
        let w = clamp_extent(width);
        let h = clamp_extent(height);
        RectView {
            x: clamp_coord(clamp_coord(cx) - w / 2),
            y: clamp_coord(clamp_coord(cy) - h / 2),
            width: w,
            height: h,
        }
    }

    /// Corner and extents are within the limits the constructors keep.
    pub open spec fn bounded(self) -> bool {
        &&& MIN_COORD <= self.x <= MAX_COORD
        &&& MIN_COORD <= self.y <= MAX_COORD
        &&& 1 <= self.width <= MAX_EXTENT
        &&& 1 <= self.height <= MAX_EXTENT
    }
}

/// A non-empty axis-aligned rectangle.
#[derive(Clone, Copy, Debug, PartialEq, Eq, Structural)]
pub struct Rect {
    x: i32,
    y: i32,
    w: u32,
    h: u32,
}

impl View for Rect {
    type V = RectView;

    closed spec fn view(&self) -> RectView {
        RectView { x: self.x as int, y: self.y as int, width: self.w as int, height: self.h as int }
    }
}

impl Rect {
    #[verifier::type_invariant]
    spec fn within_limits(self) -> bool {
        self@.bounded()
    }

    /// A rectangle from its top-left corner; the arguments are saturated.
    pub fn new(x: i32, y: i32, width: u32, height: u32) -> (r: Rect)
        ensures
            r@ == RectView::cornered(x as int, y as int, width as int, height as int),
    {
        Rect { x: clamp_position(x), y: clamp_position(y), w: clamp_size(width), h: clamp_size(height) }
    }

    /// A rectangle centred on `center`; the arguments are saturated.
    pub fn from_center(center: Point, width: u32, height: u32) -> (r: Rect)
        ensures
            r@ == RectView::centered(center.x as int, center.y as int, width as int, height as int),
    {
        let w = clamp_size(width);
        let h = clamp_size(height);
        let x = clamp_position(clamp_position(center.x) - (w / 2) as i32);
        let y = clamp_position(clamp_position(center.y) - (h / 2) as i32);
        Rect { x, y, w, h }
    }

    /// The x-coordinate of the top-left corner.
    pub fn x(&self) -> (r: i32)
        ensures
            r == self@.x,
    {
        self.x
    }

    /// The y-coordinate of the top-left corner.
    pub fn y(&self) -> (r: i32)
        ensures
            r == self@.y,
    {
        self.y
    }

    /// The width, at least one.
    pub fn width(&self) -> (r: u32)
        ensures
            r == self@.width,
            1 <= r <= MAX_EXTENT,
    {
        proof {
            use_type_invariant(self);
        }
        self.w
    }

    /// The height, at least one.
    pub fn height(&self) -> (r: u32)
        ensures
            r == self@.height,
            1 <= r <= MAX_EXTENT,
    {
        proof {
            use_type_invariant(self);
        }
        self.h
    }

    /// The x-coordinate of the left edge.
    pub fn left(&self) -> (r: i32)
        ensures
            r == self@.left(),
    {
        self.x
    }

    /// The x-coordinate just past the right edge: left plus width.
    pub fn right(&self) -> (r: i32)
        ensures
            r == self@.right(),
    {
        proof {
            use_type_invariant(self);
        }
        self.x + self.w as i32
    }

    /// The y-coordinate of the top edge.
    pub fn top(&self) -> (r: i32)
        ensures
            r == self@.top(),
    {
        self.y
    }

    /// The y-coordinate just past the bottom edge: top plus height.
    pub fn bottom(&self) -> (r: i32)
        ensures
            r == self@.bottom(),
    {
        proof {
            use_type_invariant(self);
        }
        self.y + self.h as i32
    }
}

} // verus!
