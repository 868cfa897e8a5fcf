//! Axis-aligned rectangles and points in screen coordinates.
//!
//! Coordinates and sizes are kept within half of the `i32` range, so that the
//! right and bottom edges of a rectangle never overflow. Every constructor and
//! setter clamps its arguments into that range; a zero size becomes one.
use vstd::prelude::*;

verus! {

/// Largest coordinate or size a rectangle may hold (`i32::MAX / 2`).
pub const MAX_INT_VALUE: i32 = 1073741823;

/// Smallest coordinate a rectangle or point may hold (`i32::MIN / 2`).
pub const MIN_INT_VALUE: i32 = -1073741824;

/// A coordinate clamped into `[MIN_INT_VALUE, MAX_INT_VALUE]`.
pub open spec fn clamp_position(v: int) -> int {
    if v > MAX_INT_VALUE {
        MAX_INT_VALUE as int
    } else if v < MIN_INT_VALUE {
        MIN_INT_VALUE as int
    } else {
        v
    }
}

/// A size clamped into `[1, MAX_INT_VALUE]`; zero becomes one.
pub open spec fn clamp_size(v: int) -> int {
    if v == 0 {
        1
    } else if v > MAX_INT_VALUE {
        MAX_INT_VALUE as int
    } else {
        v
    }
}

pub open spec fn max_of(a: int, b: int) -> int {
    if a >= b {
        a
    } else {
        b
    }
}

pub open spec fn min_of(a: int, b: int) -> int {
    if a <= b {
        a
    } else {
        b
    }
}

/// A position within the range that rectangles and points may hold.
pub open spec fn position_in_range(v: int) -> bool {
    MIN_INT_VALUE <= v <= MAX_INT_VALUE
}

/// The mathematical content of a rectangle: its top-left corner and its size.
pub struct RectView {
    pub x: int,
    pub y: int,
    pub w: int,
    pub h: int,
}

impl RectView {
    /// The bounds that every rectangle keeps.
    pub open spec fn wf(self) -> bool {
        &&& position_in_range(self.x)
        &&& position_in_range(self.y)
        &&& 1 <= self.w <= MAX_INT_VALUE
        &&& 1 <= self.h <= MAX_INT_VALUE
    }

    pub open spec fn right(self) -> int {
        self.x + self.w
    }

    pub open spec fn bottom(self) -> int {
        self.y + self.h
    }

    /// The rectangle that `Rect::new(x, y, w, h)` builds.
    pub open spec fn clamped(x: int, y: int, w: int, h: int) -> RectView {
        RectView { x: clamp_position(x), y: clamp_position(y), w: clamp_size(w), h: clamp_size(h) }
    }

    /// A point lies in the rectangle: left and top edges included, right and
    /// bottom edges excluded.
    pub open spec fn contains(self, px: int, py: int) -> bool {
        &&& self.x <= px < self.right()
        &&& self.y <= py < self.bottom()
    }

    /// The two rectangles share an area of positive size. Rectangles that only
    /// touch along an edge do not overlap.
    pub open spec fn overlaps(self, other: RectView) -> bool {
        &&& max_of(self.x, other.x) < min_of(self.right(), other.right())
        &&& max_of(self.y, other.y) < min_of(self.bottom(), other.bottom())
    }

    /// The common part of two overlapping rectangles.
    pub open spec fn intersection(self, other: RectView) -> RectView {
        let x = max_of(self.x, other.x);
        let y = max_of(self.y, other.y);
        RectView {
            x: x,
            y: y,
            w: min_of(self.right(), other.right()) - x,
            h: min_of(self.bottom(), other.bottom()) - y,
        }
    }

    /// The point that `center` returns: sizes are halved rounding down.
    pub open spec fn center(self) -> (int, int) {
        (self.x + self.w / 2, self.y + self.h / 2)
    }
}

/// A point on the screen, with both coordinates in the range of rectangles.
#[derive(Clone, Copy, Debug, PartialEq, Eq, Structural)]
pub struct Point {
    x: i32,
    y: i32,
}

impl View for Point {
    type V = (int, int);

    closed spec fn view(&self) -> (int, int) {
        (self.x as int, self.y as int)
    }
}

impl Point {
    #[verifier::type_invariant]
    spec fn inv(self) -> bool {
        position_in_range(self.x as int) && position_in_range(self.y as int)
    }

    /// Creates a point; each coordinate is clamped into the range of rectangles.
    pub fn new(x: i32, y: i32) -> (p: Point)
        ensures
            p@ == (clamp_position(x as int), clamp_position(y as int)),
    {
        Point { x: clamp_position_exec(x), y: clamp_position_exec(y) }
    }

    pub fn x(&self) -> (r: i32)
        ensures
            r == self@.0,
            position_in_range(self@.0),
            position_in_range(self@.1),
    {
        proof {
            use_type_invariant(self);
        }
        self.x
    }

    pub fn y(&self) -> (r: i32)
        ensures
            r == self@.1,
            position_in_range(self@.0),
            position_in_range(self@.1),
    {
        proof {
            use_type_invariant(self);
        }
        self.y
    }
}

fn clamp_position_exec(v: i32) -> (r: i32)
    ensures
        r == clamp_position(v as int),
{
    if v > MAX_INT_VALUE {
        MAX_INT_VALUE
    } else if v < MIN_INT_VALUE {
        MIN_INT_VALUE
    } else {
        v
    }
}

fn clamp_size_exec(v: u32) -> (r: u32)
    ensures
        r == clamp_size(v as int),
{
    if v == 0 {
        1
    } else if v > MAX_INT_VALUE as u32 {
        MAX_INT_VALUE as u32
    } else {
        v
    }
}

/// A non-empty axis-aligned rectangle.
#[derive(Clone, Copy, Debug, PartialEq, Eq, Structural)]
pub struct Rect {
    x: i32,
    y: i32,
    w: u32,
    h: u32,
}

impl View for Rect {
    type V = RectView;

    closed spec fn view(&self) -> RectView {
        RectView { x: self.x as int, y: self.y as int, w: self.w as int, h: self.h as int }
    }
}

impl Rect {
    #[verifier::type_invariant]
    spec fn inv(self) -> bool {
        self@.wf()
    }

    /// Creates a rectangle. The position is clamped into the range of
    /// rectangles, and a size of zero becomes one.
    pub fn new(x: i32, y: i32, width: u32, height: u32) -> (r: Rect)
        ensures
            r@ == RectView::clamped(x as int, y as int, width as int, height as int),
            r@.wf(),
    {
        Rect {
            x: clamp_position_exec(x),
            y: clamp_position_exec(y),
            w: clamp_size_exec(width),
            h: clamp_size_exec(height),
        }
    }

    pub fn x(&self) -> (r: i32)
        ensures
            r == self@.x,
            self@.wf(),
    {
        proof {
            use_type_invariant(self);
        }
        self.x
    }

    pub fn y(&self) -> (r: i32)
        ensures
            r == self@.y,
            self@.wf(),
    {
        proof {
            use_type_invariant(self);
        }
        self.y
    }

    pub fn width(&self) -> (r: u32)
        ensures
            r == self@.w,
            self@.wf(),
    {
        proof {
            use_type_invariant(self);
        }
        self.w
    }

    pub fn height(&self) -> (r: u32)
        ensures
            r == self@.h,
            self@.wf(),
    {
        proof {
            use_type_invariant(self);
        }
        self.h
    }

    /// Moves the left edge to `x`, clamped into the range of rectangles.
    pub fn set_x(&mut self, x: i32)
        ensures
            final(self)@ == (RectView { x: clamp_position(x as int), ..old(self)@ }),
    {
        proof {
            use_type_invariant(&*self);
        }
        self.x = clamp_position_exec(x);
    }

    /// Moves the top edge to `y`, clamped into the range of rectangles.
    pub fn set_y(&mut self, y: i32)
        ensures
            final(self)@ == (RectView { y: clamp_position(y as int), ..old(self)@ }),
    {
        proof {
            use_type_invariant(&*self);
        }
        self.y = clamp_position_exec(y);
    }

    /// The center of the rectangle; odd sizes round down.
    pub fn center(&self) -> (p: Point)
        ensures
            p@ == (clamp_position(self@.center().0), clamp_position(self@.center().1)),
    {
        proof {
            use_type_invariant(self);
        }
        Point::new(self.x + (self.w / 2) as i32, self.y + (self.h / 2) as i32)
    }

    /// The point lies in the rectangle (left and top edges included).
    pub fn contains_point(&self, point: Point) -> (r: bool)
        ensures
            r == self@.contains(point@.0, point@.1),
    {
        proof {
            use_type_invariant(self);
        }
        let px = point.x();
        let py = point.y();
        let inside_x = px >= self.x && px < self.x + self.w as i32;
        inside_x && (py >= self.y && py < self.y + self.h as i32)
    }

    /// The two rectangles share an area of positive size.
    pub fn has_intersection(&self, other: Rect) -> (r: bool)
        ensures
            r == self@.overlaps(other@),
    {
        proof {
            use_type_invariant(self);
            use_type_invariant(&other);
        }
        let x_min = if other.x > self.x { other.x } else { self.x };
        let a_right = self.x + self.w as i32;
        let b_right = other.x + other.w as i32;
        let x_max = if b_right < a_right { b_right } else { a_right };
        if x_max <= x_min {
            return false;
        }
        let y_min = if other.y > self.y { other.y } else { self.y };
        let a_bottom = self.y + self.h as i32;
        let b_bottom = other.y + other.h as i32;
        let y_max = if b_bottom < a_bottom { b_bottom } else { a_bottom };
        y_min < y_max
    }

    /// The common part of two rectangles, or `None` where they do not overlap.
    pub fn intersection(&self, other: Rect) -> (r: Option<Rect>)
        ensures
            r is Some <==> self@.overlaps(other@),
            r matches Some(i) ==> i@ == self@.intersection(other@),
    {
        proof {
            use_type_invariant(self);
            use_type_invariant(&other);
        }
        let x_min = if other.x > self.x { other.x } else { self.x };
        let a_right = self.x + self.w as i32;
        let b_right = other.x + other.w as i32;
        let x_max = if b_right < a_right { b_right } else { a_right };
        let y_min = if other.y > self.y { other.y } else { self.y };
        let a_bottom = self.y + self.h as i32;
        let b_bottom = other.y + other.h as i32;
        let y_max = if b_bottom < a_bottom { b_bottom } else { a_bottom };
        if x_max <= x_min || y_max <= y_min {
            None
        } else {
            Some(Rect::new(x_min, y_min, (x_max - x_min) as u32, (y_max - y_min) as u32))
        }
    }
}

} // verus!
