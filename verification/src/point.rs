//! Fixed-point coordinates on the canvas.
//!
//! A coordinate is a signed count of sub-pixel units, [`ONE`] of which make up
//! one pixel. The pixel that holds a coordinate is the coordinate divided by
//! [`ONE`], rounded towards negative infinity.

use vstd::prelude::*;

verus! {

/// The number of sub-pixel units in one pixel; also the fixed-point
/// representation of the probability 1.
pub const ONE: i64 = 1_000_000;

/// No coordinate that a [`Point`] can hold lies in a pixel further than this
/// from pixel zero.
pub const PIXEL_LIMIT: i64 = 9_223_372_036_855;

/// The mathematical value of a [`Point`]: a pair of unbounded integers
/// counting sub-pixel units.
pub struct Coords {
    pub x: int,
    pub y: int,
}

/// A position, or the difference of two positions, in sub-pixel units.
#[derive(Clone, Copy, Debug, PartialEq, Eq, Structural)]
pub struct Point {
    pub x: i64,
    pub y: i64,
}

impl View for Point {
    type V = Coords;

    open spec fn view(&self) -> Coords {
        Coords { x: self.x as int, y: self.y as int }
    }
}

/// The whole pixel that a coordinate lies in: the largest integer `p` with
/// `p * ONE <= units`.
pub open spec fn pixel_of(units: int) -> int {
    units / (ONE as int)
}

impl Coords {
    /// Component-wise difference.
    pub open spec fn minus(self, other: Coords) -> Coords {
        Coords { x: self.x - other.x, y: self.y - other.y }
    }

    /// Both components can be held by a [`Point`].
    pub open spec fn representable(self) -> bool {
        &&& i64::MIN <= self.x <= i64::MAX
        &&& i64::MIN <= self.y <= i64::MAX
    }

    /// Neither component is further than `limit` from zero.
    pub open spec fn within(self, limit: int) -> bool {
        &&& -limit <= self.x <= limit
        &&& -limit <= self.y <= limit
    }

    /// The pixel column that holds this position.
    pub open spec fn column(self) -> int {
        pixel_of(self.x)
    }

    /// The pixel row that holds this position.
    pub open spec fn row(self) -> int {
        pixel_of(self.y)
    }
}

/// A coordinate lies in the pixel-wide interval that starts at its pixel.
pub proof fn lemma_pixel_of_bounds(units: int)
    ensures
        pixel_of(units) * ONE <= units < (pixel_of(units) + 1) * ONE,
{
    let q = units / (ONE as int);
    let r = units % (ONE as int);
    assert(units == (ONE as int) * q + r && 0 <= r < ONE) by {
        vstd::arithmetic::div_mod::lemma_fundamental_div_mod(units, ONE as int);
    }
    assert((q + 1) * ONE == q * ONE + ONE) by (nonlinear_arith);
    assert(q * ONE == (ONE as int) * q) by (nonlinear_arith);
}

impl Point {
    /// The origin: the top-left corner of the canvas.
    pub fn zero() -> (origin: Point)
        ensures
            origin@ == (Coords { x: 0, y: 0 }),
    {
        Point { x: 0, y: 0 }
    }

    /// The point with the given coordinates, in sub-pixel units.
    pub fn new(x: i64, y: i64) -> (point: Point)
        ensures
            point@ == (Coords { x: x as int, y: y as int }),
            point.x == x,
            point.y == y,
    {
        Point { x, y }
    }

    /// Component-wise subtraction: the displacement that leads from `other`
    /// to `self`.
    pub fn sub(self, other: Point) -> (difference: Point)
        requires
            self@.minus(other@).representable(),
        ensures
            difference@ == self@.minus(other@),
    {
        Point { x: self.x - other.x, y: self.y - other.y }
    }

    /// The pixel column that holds this point.
    pub fn column(&self) -> (column: i64)
        ensures
            column == self@.column(),
            -PIXEL_LIMIT <= column <= PIXEL_LIMIT,
    {
        whole_pixel(self.x)
    }

    /// The pixel row that holds this point.
    pub fn row(&self) -> (row: i64)
        ensures
            row == self@.row(),
            -PIXEL_LIMIT <= row <= PIXEL_LIMIT,
    {
        whole_pixel(self.y)
    }
}

/// The whole pixel that holds a coordinate, rounding towards negative
/// infinity: `-1` sub-pixel units lie in pixel `-1`, not in pixel `0`.
pub fn whole_pixel(units: i64) -> (pixel: i64)
    ensures
        pixel == pixel_of(units as int),
        pixel * ONE <= units < (pixel + 1) * ONE,
        -PIXEL_LIMIT <= pixel <= PIXEL_LIMIT,
{
    proof {
        lemma_pixel_of_bounds(units as int);
        let q = pixel_of(units as int);
        assert(-PIXEL_LIMIT <= q <= PIXEL_LIMIT) by (nonlinear_arith)
            requires
                q * ONE <= units,
                units < (q + 1) * ONE,
                i64::MIN <= units <= i64::MAX,
                ONE == 1_000_000,
                PIXEL_LIMIT == 9_223_372_036_855,
        ;
    }
    units.checked_div_euclid(ONE).unwrap()
}

} // verus!
