use vstd::prelude::*;

verus! {

/// A point in whole logical pixels.
#[derive(Copy, Clone, PartialEq, Eq, Structural, Debug)]
pub struct Point {
    pub x: i32,
    pub y: i32,
}

/// A width and a height in whole logical pixels.
#[derive(Copy, Clone, PartialEq, Eq, Structural, Debug)]
pub struct Size {
    pub w: i32,
    pub h: i32,
}

/// An axis-aligned rectangle: top-left corner, width and height.
#[derive(Copy, Clone, PartialEq, Eq, Structural, Debug)]
pub struct Rect {
    pub x: i32,
    pub y: i32,
    pub w: i32,
    pub h: i32,
}

pub open spec fn min_i32(a: i32, b: i32) -> i32 {
    if a <= b { a } else { b }
}

/// `floor(d / 2)`.
pub open spec fn half_floor(d: int) -> int {
    d / 2
}

impl Point {
    pub fn zero() -> (r: Point)
        ensures
            r == (Point { x: 0, y: 0 }),
    {
        Point { x: 0, y: 0 }
    }
}

impl Size {
    pub fn zero() -> (r: Size)
        ensures
            r == (Size { w: 0, h: 0 }),
    {
        Size { w: 0, h: 0 }
    }

    /// The smaller of the two widths and the smaller of the two heights.
    pub fn smallest(&self, other: &Size) -> (r: Size)
        ensures
            r == (Size { w: min_i32(self.w, other.w), h: min_i32(self.h, other.h) }),
    {
        Size {
            w: if self.w <= other.w { self.w } else { other.w },
            h: if self.h <= other.h { self.h } else { other.h },
        }
    }
}

/// Halves `d`, rounding toward negative infinity.
fn floor_half(d: i64) -> (r: i64)
    ensures
        r as int == half_floor(d as int),
{
    if d >= 0 {
        (d as u64 / 2) as i64
    } else {
        let m: u64 = (1 - (d as i128)) as u64;
        -((m / 2) as i64)
    }
}

impl Rect {
    /// Whether `(px, py)` lies in the rectangle, which includes its left and
    /// top edges and excludes its right and bottom edges.
    pub open spec fn contains_spec(self, p: Point) -> bool {
        &&& self.x <= p.x
        &&& p.x < self.x + self.w
        &&& self.y <= p.y
        &&& p.y < self.y + self.h
    }

    /// The rectangle of size `s` centred on this one (rounding down).
    pub open spec fn center_spec(self, s: Size) -> (int, int) {
        (self.x + half_floor(self.w - s.w), self.y + half_floor(self.h - s.h))
    }

    pub fn zero() -> (r: Rect)
        ensures
            r == (Rect { x: 0, y: 0, w: 0, h: 0 }),
    {
        Rect { x: 0, y: 0, w: 0, h: 0 }
    }

    pub fn with_position_size(top_left: &Point, size: &Size) -> (r: Rect)
        ensures
            r == (Rect { x: top_left.x, y: top_left.y, w: size.w, h: size.h }),
    {
        Rect { x: top_left.x, y: top_left.y, w: size.w, h: size.h }
    }

    pub fn size(&self) -> (r: Size)
        ensures
            r == (Size { w: self.w, h: self.h }),
    {
        Size { w: self.w, h: self.h }
    }

    pub fn top_left(&self) -> (r: Point)
        ensures
            r == (Point { x: self.x, y: self.y }),
    {
        Point { x: self.x, y: self.y }
    }

    /// Returns a rectangle of the given size that is centred on this one.
    pub fn center(&self, size: Size) -> (r: Rect)
        requires
            i32::MIN <= self.center_spec(size).0 <= i32::MAX,
            i32::MIN <= self.center_spec(size).1 <= i32::MAX,
        ensures
            r.x == self.center_spec(size).0,
            r.y == self.center_spec(size).1,
            r.w == size.w,
            r.h == size.h,
    {
        let dx = floor_half(self.w as i64 - size.w as i64);
        let dy = floor_half(self.h as i64 - size.h as i64);
        Rect { x: (self.x as i64 + dx) as i32, y: (self.y as i64 + dy) as i32, w: size.w, h: size.h }
    }

    pub fn contains(&self, point: Point) -> (r: bool)
        ensures
            r == self.contains_spec(point),
    {
        let px = point.x as i64;
        let py = point.y as i64;
        px >= self.x as i64 && px < self.x as i64 + self.w as i64 && py >= self.y as i64 && py
            < self.y as i64 + self.h as i64
    }
}

/// Containment is half-open on both axes: the left and top edges belong to
/// the rectangle, the right and bottom edges do not.
pub proof fn lemma_contains_half_open(r: Rect, p: Point)
    requires
        r.w > 0,
        r.h > 0,
    ensures
        r.contains_spec(Point { x: r.x, y: r.y }),
        r.y <= p.y < r.y + r.h ==> r.contains_spec(Point { x: r.x, y: p.y }),
        r.x <= p.x < r.x + r.w ==> r.contains_spec(Point { x: p.x, y: r.y }),
        p.x == r.x + r.w ==> !r.contains_spec(p),
        p.y == r.y + r.h ==> !r.contains_spec(p),
{
}

} // verus!
