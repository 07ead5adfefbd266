use vstd::prelude::*;

verus! {

/// How many units of a coordinate make one logical point.
pub const UNITS_PER_POINT: i64 = 256;

/// Whether a mathematical integer can be stored as an `i64`.
pub open spec fn fits_i64(v: int) -> bool {
    i64::MIN <= v <= i64::MAX
}

/// A displacement in the plane, in fixed-point units.
#[derive(Clone, Copy, Debug, PartialEq, Eq, Structural)]
pub struct Vec2 {
    pub x: i64,
    pub y: i64,
}

/// A position in the plane, in fixed-point units; `y` grows downwards.
#[derive(Clone, Copy, Debug, PartialEq, Eq, Structural)]
pub struct Pos2 {
    pub x: i64,
    pub y: i64,
}

/// An axis-aligned rectangle given by its two extreme corners.
#[derive(Clone, Copy, Debug, PartialEq, Eq, Structural)]
pub struct Rect {
    pub min: Pos2,
    pub max: Pos2,
}

pub fn vec2(x: i64, y: i64) -> (r: Vec2)
    ensures
        r.x == x,
        r.y == y,
{
    Vec2 { x, y }
}

pub fn pos2(x: i64, y: i64) -> (r: Pos2)
    ensures
        r.x == x,
        r.y == y,
{
    Pos2 { x, y }
}

impl Vec2 {
    /// Whether `self + v` can be computed without overflow.
    pub open spec fn add_fits(self, v: Vec2) -> bool {
        fits_i64(self.x + v.x) && fits_i64(self.y + v.y)
    }

    pub fn add(self, v: Vec2) -> (r: Vec2)
        requires
            self.add_fits(v),
        ensures
            r.x == self.x + v.x,
            r.y == self.y + v.y,
    {
        Vec2 { x: self.x + v.x, y: self.y + v.y }
    }
}

impl Pos2 {
    /// Whether `self` moved by `v` can be computed without overflow.
    pub open spec fn add_fits(self, v: Vec2) -> bool {
        fits_i64(self.x + v.x) && fits_i64(self.y + v.y)
    }

    pub open spec fn spec_translate(self, v: Vec2) -> Pos2 {
        Pos2 { x: (self.x + v.x) as i64, y: (self.y + v.y) as i64 }
    }

    /// `self` moved by `v`.
    pub fn translate(self, v: Vec2) -> (r: Pos2)
        requires
            self.add_fits(v),
        ensures
            r == self.spec_translate(v),
            r.x == self.x + v.x,
            r.y == self.y + v.y,
    {
        Pos2 { x: self.x + v.x, y: self.y + v.y }
    }
}

impl Rect {
    /// The rectangle whose top-left corner is `min` and whose size is `size`.
    pub open spec fn spec_from_min_size(min: Pos2, size: Vec2) -> Rect {
        Rect { min, max: min.spec_translate(size) }
    }

    pub fn from_min_size(min: Pos2, size: Vec2) -> (r: Rect)
        requires
            min.add_fits(size),
        ensures
            r == Rect::spec_from_min_size(min, size),
            r.min == min,
            r.max.x == min.x + size.x,
            r.max.y == min.y + size.y,
    {
        Rect { min, max: min.translate(size) }
    }

    /// The extent of the rectangle along each axis.
    pub open spec fn spec_size(self) -> Vec2 {
        Vec2 { x: (self.max.x - self.min.x) as i64, y: (self.max.y - self.min.y) as i64 }
    }

    /// The top-left corner.
    pub fn left_top(&self) -> (r: Pos2)
        ensures
            r == self.min,
    {
        self.min
    }
}

} // verus!
