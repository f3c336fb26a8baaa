//! Exact rational coordinates.
//!
//! Every geometric quantity handed to the tessellation engine is described
//! exactly as a rational `num / den` with a positive denominator. The engine
//! works in binary32; the trusted boundary converts numerator and
//! denominator to binary32 and divides, so identical `Coord` values always
//! reach the engine as the same number, and small rationals (parts within
//! binary32's exact integer range) as the binary32 value nearest to them.

use vstd::prelude::*;

verus! {

/// Magnitude bound on numerators and denominators, so that the rational
/// arithmetic the library performs (cross products, doubling a denominator)
/// stays inside `i64`.
pub const COORD_BOUND: i64 = 0x4000_0000;

/// The exact rational `num / den`.
#[derive(Clone, Copy, Debug, PartialEq, Eq, Structural)]
pub struct Coord {
    pub num: i64,
    pub den: i64,
}

impl View for Coord {
    type V = (int, int);

    open spec fn view(&self) -> (int, int) {
        (self.num as int, self.den as int)
    }
}

impl Coord {
    /// A well-formed coordinate: positive denominator, both parts bounded.
    pub open spec fn wf(self) -> bool {
        0 < self.den <= COORD_BOUND && -COORD_BOUND <= self.num <= COORD_BOUND
    }

    /// What the trusted boundary demands of a coordinate it converts: a
    /// positive denominator (a zero one would reach the engine as NaN or
    /// infinity, on which its sweep can panic) within twice the well-formed
    /// bound, so the derived binary32 values stay far inside range. Implied
    /// by `wf`, and also true of the anchor coordinates, whose denominator
    /// may be doubled.
    pub open spec fn bounded(self) -> bool {
        0 < self.den <= 2 * COORD_BOUND && -2 * COORD_BOUND <= self.num <= 2 * COORD_BOUND
    }

    pub fn new(num: i64, den: i64) -> (c: Coord)
        requires
            -COORD_BOUND <= num <= COORD_BOUND,
            0 < den <= COORD_BOUND,
        ensures
            c.wf(),
            c@ == (num as int, den as int),
    {
        Coord { num, den }
    }

    pub fn from_int(v: i64) -> (c: Coord)
        requires
            -COORD_BOUND <= v <= COORD_BOUND,
        ensures
            c.wf(),
            c@ == (v as int, 1int),
    {
        Coord { num: v, den: 1 }
    }

    pub fn zero() -> (c: Coord)
        ensures
            c.wf(),
            c@ == rat_zero(),
    {
        Coord { num: 0, den: 1 }
    }

    pub fn one() -> (c: Coord)
        ensures
            c.wf(),
            c@ == (1int, 1int),
    {
        Coord { num: 1, den: 1 }
    }
}

/// Both pairs denote the same rational (cross multiplication; sound whenever
/// the denominators are nonzero).
pub open spec fn rat_eq(a: (int, int), b: (int, int)) -> bool {
    a.0 * b.1 == b.0 * a.1
}

pub open spec fn rat_add(a: (int, int), b: (int, int)) -> (int, int) {
    (a.0 * b.1 + b.0 * a.1, a.1 * b.1)
}

pub open spec fn rat_neg(a: (int, int)) -> (int, int) {
    (-a.0, a.1)
}

pub open spec fn rat_half(a: (int, int)) -> (int, int) {
    (a.0, 2 * a.1)
}

pub open spec fn rat_zero() -> (int, int) {
    (0int, 1int)
}

/// The rational is zero (for pairs with a nonzero denominator).
pub open spec fn rat_is_zero(a: (int, int)) -> bool {
    a.0 == 0
}

/// The rational is strictly positive, for pairs with a positive denominator.
pub open spec fn rat_is_pos(a: (int, int)) -> bool {
    a.0 > 0
}

/// The rational is at least one, for pairs with a positive denominator.
pub open spec fn rat_ge_one(a: (int, int)) -> bool {
    a.0 >= a.1
}

/// A 2D point or vector with exact rational components.
#[derive(Clone, Copy, Debug, PartialEq, Eq, Structural)]
pub struct Vec2 {
    pub x: Coord,
    pub y: Coord,
}

impl View for Vec2 {
    type V = ((int, int), (int, int));

    open spec fn view(&self) -> ((int, int), (int, int)) {
        (self.x@, self.y@)
    }
}

impl Vec2 {
    pub open spec fn wf(self) -> bool {
        self.x.wf() && self.y.wf()
    }

    /// Both components are safe to hand to the trusted boundary.
    pub open spec fn bounded(self) -> bool {
        self.x.bounded() && self.y.bounded()
    }

    pub fn new(x: Coord, y: Coord) -> (v: Vec2)
        ensures
            v.x == x,
            v.y == y,
    {
        Vec2 { x, y }
    }

    pub fn zero() -> (v: Vec2)
        ensures
            v.wf(),
            v@ == (rat_zero(), rat_zero()),
    {
        Vec2 { x: Coord::zero(), y: Coord::zero() }
    }

    pub fn one() -> (v: Vec2)
        ensures
            v.wf(),
            v@ == ((1int, 1int), (1int, 1int)),
    {
        Vec2 { x: Coord::one(), y: Coord::one() }
    }
}

} // verus!
