//! Plain geometry types, generic over the coordinate type.

use vstd::prelude::*;

use crate::utils::ratio::{round_div, rounded, rounded_is_nearest};

verus! {

/// A position.
#[derive(Debug, PartialEq, Eq)]
pub struct Point<N> {
    pub x: N,
    pub y: N,
}

/// A width and a height.
#[derive(Debug, PartialEq, Eq)]
pub struct Size<N> {
    pub w: N,
    pub h: N,
}

/// An axis-aligned rectangle.
#[derive(Debug, PartialEq, Eq)]
pub struct Rectangle<N> {
    pub loc: Point<N>,
    pub size: Size<N>,
}

impl<N: Copy> Clone for Point<N> {
    fn clone(&self) -> (copy: Self)
        ensures
            copy == *self,
    {
        *self
    }
}

impl<N: Copy> Copy for Point<N> {

}

impl<N> Point<N> {
    pub fn new(x: N, y: N) -> (point: Self)
        ensures
            point == (Point { x, y }),
    {
        Point { x, y }
    }
}

impl<N: Copy> Clone for Size<N> {
    fn clone(&self) -> (copy: Self)
        ensures
            copy == *self,
    {
        *self
    }
}

impl<N: Copy> Copy for Size<N> {

}

impl<N> Size<N> {
    pub fn new(w: N, h: N) -> (size: Self)
        ensures
            size == (Size { w, h }),
    {
        Size { w, h }
    }
}

impl<N: Copy> Clone for Rectangle<N> {
    fn clone(&self) -> (copy: Self)
        ensures
            copy == *self,
    {
        *self
    }
}

impl<N: Copy> Copy for Rectangle<N> {

}

impl<N> Rectangle<N> {
    pub fn new(loc: Point<N>, size: Size<N>) -> (rect: Self)
        ensures
            rect == (Rectangle { loc, size }),
    {
        Rectangle { loc, size }
    }
}

impl Rectangle<i64> {
    /// The points of the rectangle: its top and left edges belong to it, its bottom and right
    /// edges do not.
    pub open spec fn covers(self, point: Point<i64>) -> bool {
        &&& self.loc.x <= point.x < self.loc.x + self.size.w
        &&& self.loc.y <= point.y < self.loc.y + self.size.h
    }

    /// Whether the point lies inside the rectangle.
    pub fn contains(&self, point: Point<i64>) -> (inside: bool)
        requires
            self.loc.x + self.size.w <= i64::MAX,
            self.loc.y + self.size.h <= i64::MAX,
            self.size.w >= 0,
            self.size.h >= 0,
        ensures
            inside == self.covers(point),
    {
        point.x >= self.loc.x && point.x < self.loc.x + self.size.w && point.y >= self.loc.y
            && point.y < self.loc.y + self.size.h
    }
}

/// A fractional output scale, in the 120ths of the fractional-scale protocol: `n120 == 120` is
/// one physical pixel per logical pixel.
#[derive(Debug, Clone, Copy, PartialEq, Eq, Structural)]
pub struct FractionalScale {
    pub n120: u32,
}

/// A non-negative length in logical pixels, as the fraction `num / den`.
#[derive(Debug, Clone, Copy, PartialEq, Eq, Structural)]
pub struct LogicalLength {
    pub num: u32,
    pub den: u32,
}

impl LogicalLength {
    /// A whole number of logical pixels.
    pub fn whole(pixels: u32) -> (length: Self)
        ensures
            length == (LogicalLength { num: pixels, den: 1 }),
    {
        LogicalLength { num: pixels, den: 1 }
    }

    /// The length in physical pixels at the given scale, to the nearest pixel.
    pub open spec fn pixels(self, scale: FractionalScale) -> int {
        rounded(self.num * scale.n120, self.den * 120)
    }

    /// Rounds the length to the physical pixel grid.
    pub fn to_pixels(&self, scale: FractionalScale) -> (pixels: u128)
        requires
            self.den > 0,
        ensures
            pixels == self.pixels(scale),
    {
        assert(self.num * scale.n120 <= u32::MAX * u32::MAX) by (nonlinear_arith)
            requires
                0 <= self.num <= u32::MAX,
                0 <= scale.n120 <= u32::MAX,
        ;
        assert(0 <= self.num * scale.n120) by (nonlinear_arith);
        round_div(self.num as u128 * scale.n120 as u128, self.den as u128 * 120)
    }
}

/// A coordinate or length in logical pixels, as the fraction `num / den`.
#[derive(Debug, Clone, Copy, PartialEq, Eq, Structural)]
pub struct LogicalCoord {
    pub num: i64,
    pub den: u32,
}

impl LogicalCoord {
    /// A number of physical pixels at the given scale.
    pub open spec fn of_pixels(pixels: i32, scale: FractionalScale) -> LogicalCoord {
        LogicalCoord { num: (pixels * 120) as i64, den: scale.n120 }
    }

    pub fn from_pixels(pixels: i32, scale: FractionalScale) -> (coord: Self)
        ensures
            coord == LogicalCoord::of_pixels(pixels, scale),
    {
        LogicalCoord { num: pixels as i64 * 120, den: scale.n120 }
    }
}

/// How a buffer's contents are rotated and mirrored relative to the surface they are shown on.
#[derive(Debug, Clone, Copy, PartialEq, Eq, Structural)]
pub enum Transform {
    Normal,
    Rotated90,
    Rotated180,
    Rotated270,
    Flipped,
    Flipped90,
    Flipped180,
    Flipped270,
}

impl Transform {
    /// Whether the transform exchanges the two axes.
    pub open spec fn exchanges_axes(self) -> bool {
        self is Rotated90 || self is Rotated270 || self is Flipped90 || self is Flipped270
    }

    /// The size a region has after the transform: a quarter turn swaps width and height.
    pub fn transform_size<N>(&self, size: Size<N>) -> (transformed: Size<N>)
        ensures
            transformed == if self.exchanges_axes() {
                (Size { w: size.h, h: size.w })
            } else {
                size
            },
    {
        match self {
            Transform::Rotated90 | Transform::Rotated270 | Transform::Flipped90
            | Transform::Flipped270 => Size { w: size.h, h: size.w },
            _ => size,
        }
    }
}

/// A length in physical pixels is off by at most half a pixel from the logical length times the
/// scale of `n120 / 120`.
pub proof fn law_lengths_round_to_the_nearest_pixel(length: LogicalLength, scale: FractionalScale)
    requires
        length.den > 0,
    ensures
        -(length.den * 120) <= 2 * (length.pixels(scale) * (length.den * 120) - length.num
            * scale.n120) <= length.den * 120,
{
    let a = length.num * scale.n120;
    let b = length.den * 120;
    assert(0 <= a) by (nonlinear_arith)
        requires
            a == length.num * scale.n120,
            0 <= length.num,
            0 <= scale.n120,
    ;
    rounded_is_nearest(a, b);
    let q = length.pixels(scale);
    assert(2 * b * q == 2 * (q * b)) by (nonlinear_arith);
}

/// Whole pixels become the logical length that they have at the scale: times `n120 / 120`, it is
/// the number of pixels.
pub proof fn law_pixels_keep_their_length(pixels: i32, scale: FractionalScale)
    ensures
        ({
            let length = LogicalCoord::of_pixels(pixels, scale);
            &&& length.num * scale.n120 == pixels * 120 * length.den
            &&& scale.n120 > 0 ==> length.den > 0
        }),
{
}

/// A rectangle covers the points from its top left corner on, up to but not with its right and
/// bottom edges.
pub proof fn law_rectangles_cover_half_open_ranges(rect: Rectangle<i64>, point: Point<i64>)
    requires
        rect.size.w > 0,
        rect.size.h > 0,
        rect.loc.x + rect.size.w <= i64::MAX,
        rect.loc.y + rect.size.h <= i64::MAX,
    ensures
        rect.covers(rect.loc),
        !rect.covers(Point { x: (rect.loc.x + rect.size.w) as i64, y: rect.loc.y }),
        !rect.covers(Point { x: rect.loc.x, y: (rect.loc.y + rect.size.h) as i64 }),
        rect.covers(
            Point {
                x: (rect.loc.x + rect.size.w - 1) as i64,
                y: (rect.loc.y + rect.size.h - 1) as i64,
            },
        ),
        rect.covers(point) <==> point.x - rect.loc.x >= 0 && point.y - rect.loc.y >= 0 && point.x
            - rect.loc.x < rect.size.w && point.y - rect.loc.y < rect.size.h,
{
}

/// Quarter turns exchange width and height, and all other transforms keep them.
pub proof fn law_quarter_turns_exchange_the_sides<N>(
    transform: Transform,
    size: Size<N>,
    transformed: Size<N>,
)
    requires
        call_ensures(Transform::transform_size::<N>, (&transform, size), transformed),
    ensures
        match transform {
            Transform::Normal | Transform::Rotated180 => transformed == size,
            Transform::Flipped | Transform::Flipped180 => transformed == size,
            Transform::Rotated90 | Transform::Rotated270 => transformed.w == size.h
                && transformed.h == size.w,
            Transform::Flipped90 | Transform::Flipped270 => transformed.w == size.h
                && transformed.h == size.w,
        },
{
}

} // verus!
