//! Integer grid points and their arithmetic.
use vstd::prelude::*;

use std::ops::{Add, AddAssign, Div, DivAssign, Mul, MulAssign, Neg, Sub, SubAssign};

use crate::direction::{Direction, sign};

verus! {

/// `v` is a value of `i32`.
pub open spec fn fits_i32(v: int) -> bool {
    i32::MIN <= v <= i32::MAX
}

/// Division rounding toward zero, as `/` does on machine integers.
pub open spec fn trunc_div(a: int, b: int) -> int {
    if a >= 0 {
        a / b
    } else {
        -((-a) / b)
    }
}

/// Absolute value.
pub open spec fn abs(v: int) -> int {
    if v < 0 {
        -v
    } else {
        v
    }
}

/// The larger of two integers.
pub open spec fn max(a: int, b: int) -> int {
    if a >= b {
        a
    } else {
        b
    }
}

/// Number of king's moves between two cells.
pub open spec fn chebyshev(a: Point, b: Point) -> int {
    max(abs(b.x - a.x), abs(b.y - a.y))
}

/// The converted value, or `0` where the conversion failed.
pub open spec fn or_zero<E>(r: Result<i32, E>) -> i32 {
    match r {
        Ok(v) => v,
        Err(_) => 0,
    }
}

/// A cell of the grid; `x` grows eastward and `y` southward.
#[derive(Copy, Clone, Debug, PartialEq, Eq, Hash, Structural)]
pub struct Point {
    pub x: i32,
    pub y: i32,
}

impl Point {
    /// The point `(x + dx, y + dy)`.
    pub open spec fn shifted(self, dx: int, dy: int) -> Point {
        Point { x: (self.x + dx) as i32, y: (self.y + dy) as i32 }
    }

    /// `shifted` stays within `i32`.
    pub open spec fn can_shift(self, dx: int, dy: int) -> bool {
        fits_i32(self.x + dx) && fits_i32(self.y + dy)
    }

    /// The point `(x * mx, y * my)`.
    pub open spec fn scaled(self, mx: int, my: int) -> Point {
        Point { x: (self.x * mx) as i32, y: (self.y * my) as i32 }
    }

    /// `scaled` stays within `i32`.
    pub open spec fn can_scale(self, mx: int, my: int) -> bool {
        fits_i32(self.x * mx) && fits_i32(self.y * my)
    }

    /// The point `(x / dx, y / dy)`, each quotient rounded toward zero.
    pub open spec fn divided(self, dx: int, dy: int) -> Point {
        Point { x: trunc_div(self.x as int, dx) as i32, y: trunc_div(self.y as int, dy) as i32 }
    }

    /// Neither divisor is zero and `divided` stays within `i32`.
    pub open spec fn can_divide(self, dx: int, dy: int) -> bool {
        dx != 0 && dy != 0 && fits_i32(trunc_div(self.x as int, dx)) && fits_i32(
            trunc_div(self.y as int, dy),
        )
    }

    /// Squared Euclidean distance between two points.
    pub open spec fn spec_square_distance(self, other: Point) -> int {
        (self.x - other.x) * (self.x - other.x) + (self.y - other.y) * (self.y - other.y)
    }

    /// The row-major index of this point in a grid `width` cells wide, when
    /// `0 <= x < width` and `y >= 0`; rows below are not bounded.
    pub open spec fn spec_index(self, width: int) -> Option<int> {
        if self.x < 0 || self.y < 0 || self.x >= width {
            None
        } else {
            Some(self.y * width + self.x)
        }
    }

    /// Create a point from its coordinates.
    pub fn new(x: i32, y: i32) -> (r: Point)
        ensures
            r.x == x,
            r.y == y,
    {
        Point { x, y }
    }

    /// Create a point from two values of another type, each one converted to
    /// `i32`, or `0` where it does not convert.
    pub fn try_new<T>(x: T, y: T) -> (r: Point) where i32: TryFrom<T>
        ensures
            <i32 as vstd::std_specs::convert::TryFromSpec<T>>::obeys_try_from_spec() ==> {
                &&& r.x == or_zero(<i32 as vstd::std_specs::convert::TryFromSpec<T>>::try_from_spec(x))
                &&& r.y == or_zero(<i32 as vstd::std_specs::convert::TryFromSpec<T>>::try_from_spec(y))
            },
    {
        let x = match i32::try_from(x) {
            Ok(v) => v,
            Err(_) => 0,
        };
        let y = match i32::try_from(y) {
            Ok(v) => v,
            Err(_) => 0,
        };
        Point { x, y }
    }

    /// The origin, `(0, 0)`.
    pub fn zero() -> (r: Point)
        ensures
            r.x == 0,
            r.y == 0,
    {
        Point::new(0, 0)
    }

    /// `true` for the origin.
    pub fn is_zero(&self) -> (r: bool)
        ensures
            r <==> (self.x == 0 && self.y == 0),
    {
        self.x == 0 && self.y == 0
    }

    /// The row-major index of this point in a grid `width` cells wide, or
    /// `None` when `x < 0`, `y < 0` or `x >= width`. The index must fit in
    /// `usize`.
    pub fn to_index(self, width: i32) -> (r: Option<usize>)
        requires
            self.spec_index(width as int) matches Some(i) ==> i <= usize::MAX,
        ensures
            r matches Some(i) ==> self.spec_index(width as int) == Some(i as int),
            r is None ==> self.spec_index(width as int) is None,
    {
        if self.x < 0 || self.y < 0 || self.x >= width {
            None
        } else {
            let (x, y, w) = (self.x as usize, self.y as usize, width as usize);
            proof {
                assert(y * w <= y * w + x);
                assert(0 <= y * w) by (nonlinear_arith)
                    requires
                        y >= 0,
                        w >= 0,
                ;
            }
            Some(y * w + x)
        }
    }

    /// The point at row-major `index` in a grid `width` cells wide:
    /// `(index % width, index / width)`. The row must fit in `i32`.
    pub fn from_index(index: usize, width: i32) -> (r: Point)
        requires
            width > 0,
            (index as int) / (width as int) <= i32::MAX,
        ensures
            r.x == (index as int) % (width as int),
            r.y == (index as int) / (width as int),
    {
        let w = width as usize;
        let x = index % w;
        let y = index / w;
        proof {
            assert(x < w);
        }
        Point::new(x as i32, y as i32)
    }

    /// The compass direction from this point toward `other`.
    pub fn direction_to(self, other: Point) -> (r: Direction)
        ensures
            r == Direction::spec_from_delta(other.x - self.x, other.y - self.y),
    {
        let dx: i32 = if other.x > self.x {
            1
        } else if other.x < self.x {
            -1
        } else {
            0
        };
        let dy: i32 = if other.y > self.y {
            1
        } else if other.y < self.y {
            -1
        } else {
            0
        };
        Direction::from_delta(dx, dy)
    }

    /// Squared Euclidean distance to `other`, which must fit in `u32`.
    pub fn square_distance_to(self, other: Self) -> (r: u32)
        requires
            self.spec_square_distance(other) <= u32::MAX,
        ensures
            r == self.spec_square_distance(other),
    {
        let dx: u32 = if self.x >= other.x {
            (self.x as i64 - other.x as i64) as u32
        } else {
            (other.x as i64 - self.x as i64) as u32
        };
        let dy: u32 = if self.y >= other.y {
            (self.y as i64 - other.y as i64) as u32
        } else {
            (other.y as i64 - self.y as i64) as u32
        };
        proof {
            assert(dx * dx == (self.x - other.x) * (self.x - other.x)) by (nonlinear_arith)
                requires
                    dx == self.x - other.x || dx == other.x - self.x,
            ;
            assert(dy * dy == (self.y - other.y) * (self.y - other.y)) by (nonlinear_arith)
                requires
                    dy == self.y - other.y || dy == other.y - self.y,
            ;
        }
        dx * dx + dy * dy
    }
}

impl PartialEq<(i32, i32)> for Point {
    fn eq(&self, other: &(i32, i32)) -> (r: bool) {
        self.x == other.0 && self.y == other.1
    }
}

impl vstd::std_specs::cmp::PartialEqSpecImpl<(i32, i32)> for Point {
    open spec fn obeys_eq_spec() -> bool {
        true
    }

    open spec fn eq_spec(&self, other: &(i32, i32)) -> bool {
        self.x == other.0 && self.y == other.1
    }
}

/// Converting an in-range point to an index and back gives the point again.
pub proof fn lemma_index_round_trip(p: Point, width: int)
    requires
        0 <= p.x < width,
        p.y >= 0,
    ensures
        p.spec_index(width) matches Some(i) && i % width == p.x && i / width == p.y,
{
    let i = p.y * width + p.x;
    assert(i % width == p.x && i / width == p.y) by (nonlinear_arith)
        requires
            i == p.y * width + p.x,
            0 <= p.x < width,
            p.y >= 0,
    ;
}

/// A point left of column zero, above row zero, or at or right of column
/// `width` has no index, however far down it lies.
pub proof fn lemma_index_absent(p: Point, width: int)
    requires
        p.x < 0 || p.y < 0 || p.x >= width,
    ensures
        p.spec_index(width) is None,
{
}

/// The direction from `a` to `b` is one step that brings each coordinate of
/// `a` one closer to `b`'s, where they differ: one move along a shortest
/// king's path. It is `Here` exactly when `a` and `b` are the same point.
pub proof fn lemma_direction_to_steps_toward(a: Point, b: Point)
    ensures
        ({
            let d = Direction::spec_from_delta(b.x - a.x, b.y - a.y);
            let p = a.shifted(d.spec_dx(), d.spec_dy());
            &&& d.spec_dx() == sign(b.x - a.x)
            &&& d.spec_dy() == sign(b.y - a.y)
            &&& a.can_shift(d.spec_dx(), d.spec_dy())
            &&& (d == Direction::Here <==> a == b)
            &&& abs(b.x - p.x) == abs(b.x - a.x) - abs(sign(b.x - a.x))
            &&& abs(b.y - p.y) == abs(b.y - a.y) - abs(sign(b.y - a.y))
            &&& (a != b ==> chebyshev(p, b) == chebyshev(a, b) - 1)
        }),
{
}

impl Default for Point {
    /// The origin.
    fn default() -> (r: Self)
        ensures
            r.x == 0,
            r.y == 0,
    {
        Self::zero()
    }
}

impl From<Point> for (i32, i32) {
    fn from(pos: Point) -> (r: (i32, i32)) {
        (pos.x, pos.y)
    }
}

impl vstd::std_specs::convert::FromSpecImpl<Point> for (i32, i32) {
    open spec fn obeys_from_spec() -> bool {
        true
    }

    open spec fn from_spec(pos: Point) -> (i32, i32) {
        (pos.x, pos.y)
    }
}

impl From<(i32, i32)> for Point {
    fn from(pair: (i32, i32)) -> (r: Point) {
        Point::new(pair.0, pair.1)
    }
}

impl vstd::std_specs::convert::FromSpecImpl<(i32, i32)> for Point {
    open spec fn obeys_from_spec() -> bool {
        true
    }

    open spec fn from_spec(pair: (i32, i32)) -> Point {
        Point { x: pair.0, y: pair.1 }
    }
}

impl From<Direction> for Point {
    fn from(dir: Direction) -> (r: Point) {
        Point::new(dir.dx(), dir.dy())
    }
}

impl vstd::std_specs::convert::FromSpecImpl<Direction> for Point {
    open spec fn obeys_from_spec() -> bool {
        true
    }

    open spec fn from_spec(dir: Direction) -> Point {
        Point { x: dir.spec_dx() as i32, y: dir.spec_dy() as i32 }
    }
}

impl From<Point> for Direction {
    fn from(point: Point) -> (r: Direction) {
        Direction::from_delta(point.x, point.y)
    }
}

impl vstd::std_specs::convert::FromSpecImpl<Point> for Direction {
    open spec fn obeys_from_spec() -> bool {
        true
    }

    open spec fn from_spec(point: Point) -> Direction {
        Direction::spec_from_delta(point.x as int, point.y as int)
    }
}

impl Add<Direction> for Point {
    type Output = Point;

    fn add(self, rhs: Direction) -> (r: Point) {
        Point::new(self.x + rhs.dx(), self.y + rhs.dy())
    }
}

impl vstd::std_specs::ops::AddSpecImpl<Direction> for Point {
    open spec fn obeys_add_spec() -> bool {
        true
    }

    open spec fn add_req(self, rhs: Direction) -> bool {
        self.can_shift(rhs.spec_dx(), rhs.spec_dy())
    }

    open spec fn add_spec(self, rhs: Direction) -> Point {
        self.shifted(rhs.spec_dx(), rhs.spec_dy())
    }
}

impl Add<(i32, i32)> for Point {
    type Output = Point;

    fn add(self, rhs: (i32, i32)) -> (r: Point) {
        Point::new(self.x + rhs.0, self.y + rhs.1)
    }
}

impl vstd::std_specs::ops::AddSpecImpl<(i32, i32)> for Point {
    open spec fn obeys_add_spec() -> bool {
        true
    }

    open spec fn add_req(self, rhs: (i32, i32)) -> bool {
        self.can_shift(rhs.0 as int, rhs.1 as int)
    }

    open spec fn add_spec(self, rhs: (i32, i32)) -> Point {
        self.shifted(rhs.0 as int, rhs.1 as int)
    }
}

impl Add<Point> for Point {
    type Output = Point;

    fn add(self, rhs: Point) -> (r: Point) {
        Point::new(self.x + rhs.x, self.y + rhs.y)
    }
}

impl vstd::std_specs::ops::AddSpecImpl<Point> for Point {
    open spec fn obeys_add_spec() -> bool {
        true
    }

    open spec fn add_req(self, rhs: Point) -> bool {
        self.can_shift(rhs.x as int, rhs.y as int)
    }

    open spec fn add_spec(self, rhs: Point) -> Point {
        self.shifted(rhs.x as int, rhs.y as int)
    }
}

impl Sub<Direction> for Point {
    type Output = Point;

    fn sub(self, rhs: Direction) -> (r: Point) {
        Point::new(self.x - rhs.dx(), self.y - rhs.dy())
    }
}

impl vstd::std_specs::ops::SubSpecImpl<Direction> for Point {
    open spec fn obeys_sub_spec() -> bool {
        true
    }

    open spec fn sub_req(self, rhs: Direction) -> bool {
        self.can_shift(-rhs.spec_dx(), -rhs.spec_dy())
    }

    open spec fn sub_spec(self, rhs: Direction) -> Point {
        self.shifted(-rhs.spec_dx(), -rhs.spec_dy())
    }
}

impl Sub<(i32, i32)> for Point {
    type Output = Point;

    fn sub(self, rhs: (i32, i32)) -> (r: Point) {
        Point::new(self.x - rhs.0, self.y - rhs.1)
    }
}

impl vstd::std_specs::ops::SubSpecImpl<(i32, i32)> for Point {
    open spec fn obeys_sub_spec() -> bool {
        true
    }

    open spec fn sub_req(self, rhs: (i32, i32)) -> bool {
        self.can_shift(-rhs.0, -rhs.1)
    }

    open spec fn sub_spec(self, rhs: (i32, i32)) -> Point {
        self.shifted(-rhs.0, -rhs.1)
    }
}

impl Sub<Point> for Point {
    type Output = Point;

    fn sub(self, rhs: Point) -> (r: Point) {
        Point::new(self.x - rhs.x, self.y - rhs.y)
    }
}

impl vstd::std_specs::ops::SubSpecImpl<Point> for Point {
    open spec fn obeys_sub_spec() -> bool {
        true
    }

    open spec fn sub_req(self, rhs: Point) -> bool {
        self.can_shift(-rhs.x, -rhs.y)
    }

    open spec fn sub_spec(self, rhs: Point) -> Point {
        self.shifted(-rhs.x, -rhs.y)
    }
}

impl Mul<i32> for Point {
    type Output = Point;

    fn mul(self, rhs: i32) -> (r: Point) {
        Point::new(self.x * rhs, self.y * rhs)
    }
}

impl vstd::std_specs::ops::MulSpecImpl<i32> for Point {
    open spec fn obeys_mul_spec() -> bool {
        true
    }

    open spec fn mul_req(self, rhs: i32) -> bool {
        self.can_scale(rhs as int, rhs as int)
    }

    open spec fn mul_spec(self, rhs: i32) -> Point {
        self.scaled(rhs as int, rhs as int)
    }
}

impl Mul<(i32, i32)> for Point {
    type Output = Point;

    fn mul(self, rhs: (i32, i32)) -> (r: Point) {
        Point::new(self.x * rhs.0, self.y * rhs.1)
    }
}

impl vstd::std_specs::ops::MulSpecImpl<(i32, i32)> for Point {
    open spec fn obeys_mul_spec() -> bool {
        true
    }

    open spec fn mul_req(self, rhs: (i32, i32)) -> bool {
        self.can_scale(rhs.0 as int, rhs.1 as int)
    }

    open spec fn mul_spec(self, rhs: (i32, i32)) -> Point {
        self.scaled(rhs.0 as int, rhs.1 as int)
    }
}

impl Mul<Point> for Point {
    type Output = Point;

    fn mul(self, rhs: Point) -> (r: Point) {
        Point::new(self.x * rhs.x, self.y * rhs.y)
    }
}

impl vstd::std_specs::ops::MulSpecImpl<Point> for Point {
    open spec fn obeys_mul_spec() -> bool {
        true
    }

    open spec fn mul_req(self, rhs: Point) -> bool {
        self.can_scale(rhs.x as int, rhs.y as int)
    }

    open spec fn mul_spec(self, rhs: Point) -> Point {
        self.scaled(rhs.x as int, rhs.y as int)
    }
}

impl Div<i32> for Point {
    type Output = Point;

    fn div(self, rhs: i32) -> (r: Point) {
        Point::new(self.x / rhs, self.y / rhs)
    }
}

impl vstd::std_specs::ops::DivSpecImpl<i32> for Point {
    open spec fn obeys_div_spec() -> bool {
        true
    }

    open spec fn div_req(self, rhs: i32) -> bool {
        self.can_divide(rhs as int, rhs as int)
    }

    open spec fn div_spec(self, rhs: i32) -> Point {
        self.divided(rhs as int, rhs as int)
    }
}

impl Div<(i32, i32)> for Point {
    type Output = Point;

    fn div(self, rhs: (i32, i32)) -> (r: Point) {
        Point::new(self.x / rhs.0, self.y / rhs.1)
    }
}

impl vstd::std_specs::ops::DivSpecImpl<(i32, i32)> for Point {
    open spec fn obeys_div_spec() -> bool {
        true
    }

    open spec fn div_req(self, rhs: (i32, i32)) -> bool {
        self.can_divide(rhs.0 as int, rhs.1 as int)
    }

    open spec fn div_spec(self, rhs: (i32, i32)) -> Point {
        self.divided(rhs.0 as int, rhs.1 as int)
    }
}

impl Div<Point> for Point {
    type Output = Point;

    fn div(self, rhs: Point) -> (r: Point) {
        Point::new(self.x / rhs.x, self.y / rhs.y)
    }
}

impl vstd::std_specs::ops::DivSpecImpl<Point> for Point {
    open spec fn obeys_div_spec() -> bool {
        true
    }

    open spec fn div_req(self, rhs: Point) -> bool {
        self.can_divide(rhs.x as int, rhs.y as int)
    }

    open spec fn div_spec(self, rhs: Point) -> Point {
        self.divided(rhs.x as int, rhs.y as int)
    }
}

impl AddAssign<Point> for Point {
    /// Same result as `*self + rhs`.
    fn add_assign(&mut self, rhs: Point)
        requires
            old(self).can_shift(rhs.x as int, rhs.y as int),
        ensures
            *final(self) == old(self).shifted(rhs.x as int, rhs.y as int),
            *final(self) == <Point as vstd::std_specs::ops::AddSpec<Point>>::add_spec(*old(self), rhs),
    {
        *self = *self + rhs;
    }
}

impl AddAssign<Direction> for Point {
    /// Same result as `*self + rhs`.
    fn add_assign(&mut self, rhs: Direction)
        requires
            old(self).can_shift(rhs.spec_dx(), rhs.spec_dy()),
        ensures
            *final(self) == old(self).shifted(rhs.spec_dx(), rhs.spec_dy()),
            *final(self) == <Point as vstd::std_specs::ops::AddSpec<Direction>>::add_spec(*old(self), rhs),
    {
        *self = *self + rhs;
    }
}

impl AddAssign<(i32, i32)> for Point {
    /// Same result as `*self + rhs`.
    fn add_assign(&mut self, rhs: (i32, i32))
        requires
            old(self).can_shift(rhs.0 as int, rhs.1 as int),
        ensures
            *final(self) == old(self).shifted(rhs.0 as int, rhs.1 as int),
            *final(self) == <Point as vstd::std_specs::ops::AddSpec<(i32, i32)>>::add_spec(*old(self), rhs),
    {
        *self = *self + rhs;
    }
}

impl SubAssign<Point> for Point {
    /// Same result as `*self - rhs`.
    fn sub_assign(&mut self, rhs: Point)
        requires
            old(self).can_shift(-rhs.x, -rhs.y),
        ensures
            *final(self) == old(self).shifted(-rhs.x, -rhs.y),
            *final(self) == <Point as vstd::std_specs::ops::SubSpec<Point>>::sub_spec(*old(self), rhs),
    {
        *self = *self - rhs;
    }
}

impl SubAssign<Direction> for Point {
    /// Same result as `*self - rhs`.
    fn sub_assign(&mut self, rhs: Direction)
        requires
            old(self).can_shift(-rhs.spec_dx(), -rhs.spec_dy()),
        ensures
            *final(self) == old(self).shifted(-rhs.spec_dx(), -rhs.spec_dy()),
            *final(self) == <Point as vstd::std_specs::ops::SubSpec<Direction>>::sub_spec(*old(self), rhs),
    {
        *self = *self - rhs;
    }
}

impl SubAssign<(i32, i32)> for Point {
    /// Same result as `*self - rhs`.
    fn sub_assign(&mut self, rhs: (i32, i32))
        requires
            old(self).can_shift(-rhs.0, -rhs.1),
        ensures
            *final(self) == old(self).shifted(-rhs.0, -rhs.1),
            *final(self) == <Point as vstd::std_specs::ops::SubSpec<(i32, i32)>>::sub_spec(*old(self), rhs),
    {
        *self = *self - rhs;
    }
}

impl MulAssign<i32> for Point {
    /// Same result as `*self * rhs`.
    fn mul_assign(&mut self, rhs: i32)
        requires
            old(self).can_scale(rhs as int, rhs as int),
        ensures
            *final(self) == old(self).scaled(rhs as int, rhs as int),
            *final(self) == <Point as vstd::std_specs::ops::MulSpec<i32>>::mul_spec(*old(self), rhs),
    {
        *self = *self * rhs;
    }
}

impl MulAssign<(i32, i32)> for Point {
    /// Same result as `*self * rhs`.
    fn mul_assign(&mut self, rhs: (i32, i32))
        requires
            old(self).can_scale(rhs.0 as int, rhs.1 as int),
        ensures
            *final(self) == old(self).scaled(rhs.0 as int, rhs.1 as int),
            *final(self) == <Point as vstd::std_specs::ops::MulSpec<(i32, i32)>>::mul_spec(*old(self), rhs),
    {
        *self = *self * rhs;
    }
}

impl MulAssign<Point> for Point {
    /// Same result as `*self * rhs`.
    fn mul_assign(&mut self, rhs: Point)
        requires
            old(self).can_scale(rhs.x as int, rhs.y as int),
        ensures
            *final(self) == old(self).scaled(rhs.x as int, rhs.y as int),
            *final(self) == <Point as vstd::std_specs::ops::MulSpec<Point>>::mul_spec(*old(self), rhs),
    {
        *self = *self * rhs;
    }
}

impl DivAssign<i32> for Point {
    /// Same result as `*self / rhs`.
    fn div_assign(&mut self, rhs: i32)
        requires
            old(self).can_divide(rhs as int, rhs as int),
        ensures
            *final(self) == old(self).divided(rhs as int, rhs as int),
            *final(self) == <Point as vstd::std_specs::ops::DivSpec<i32>>::div_spec(*old(self), rhs),
    {
        *self = *self / rhs;
    }
}

impl DivAssign<(i32, i32)> for Point {
    /// Same result as `*self / rhs`.
    fn div_assign(&mut self, rhs: (i32, i32))
        requires
            old(self).can_divide(rhs.0 as int, rhs.1 as int),
        ensures
            *final(self) == old(self).divided(rhs.0 as int, rhs.1 as int),
            *final(self) == <Point as vstd::std_specs::ops::DivSpec<(i32, i32)>>::div_spec(*old(self), rhs),
    {
        *self = *self / rhs;
    }
}

impl DivAssign<Point> for Point {
    /// Same result as `*self / rhs`.
    fn div_assign(&mut self, rhs: Point)
        requires
            old(self).can_divide(rhs.x as int, rhs.y as int),
        ensures
            *final(self) == old(self).divided(rhs.x as int, rhs.y as int),
            *final(self) == <Point as vstd::std_specs::ops::DivSpec<Point>>::div_spec(*old(self), rhs),
    {
        *self = *self / rhs;
    }
}

/// Each compound assignment (`+=`, `-=`, `*=`, `/=`) on an integer operand
/// is defined exactly where its binary operator is, and its `ensures` gives
/// the binary operator's result: here, the operand conditions of the two agree
/// for every operand kind.
pub proof fn lemma_compound_domain_matches_binary(p: Point, q: Point, d: Direction, pair: (i32, i32), k: i32)
    ensures
        <Point as vstd::std_specs::ops::AddSpec<Point>>::add_req(p, q) == p.can_shift(q.x as int, q.y as int),
        <Point as vstd::std_specs::ops::AddSpec<Direction>>::add_req(p, d) == p.can_shift(d.spec_dx(), d.spec_dy()),
        <Point as vstd::std_specs::ops::AddSpec<(i32, i32)>>::add_req(p, pair) == p.can_shift(pair.0 as int, pair.1 as int),
        <Point as vstd::std_specs::ops::SubSpec<Point>>::sub_req(p, q) == p.can_shift(-q.x, -q.y),
        <Point as vstd::std_specs::ops::SubSpec<Direction>>::sub_req(p, d) == p.can_shift(-d.spec_dx(), -d.spec_dy()),
        <Point as vstd::std_specs::ops::SubSpec<(i32, i32)>>::sub_req(p, pair) == p.can_shift(-pair.0, -pair.1),
        <Point as vstd::std_specs::ops::MulSpec<i32>>::mul_req(p, k) == p.can_scale(k as int, k as int),
        <Point as vstd::std_specs::ops::MulSpec<(i32, i32)>>::mul_req(p, pair) == p.can_scale(pair.0 as int, pair.1 as int),
        <Point as vstd::std_specs::ops::MulSpec<Point>>::mul_req(p, q) == p.can_scale(q.x as int, q.y as int),
        <Point as vstd::std_specs::ops::DivSpec<i32>>::div_req(p, k) == p.can_divide(k as int, k as int),
        <Point as vstd::std_specs::ops::DivSpec<(i32, i32)>>::div_req(p, pair) == p.can_divide(pair.0 as int, pair.1 as int),
        <Point as vstd::std_specs::ops::DivSpec<Point>>::div_req(p, q) == p.can_divide(q.x as int, q.y as int),
{
}

impl Neg for Point {
    type Output = Point;

    fn neg(self) -> (r: Point) {
        Point::new(-self.x, -self.y)
    }
}

impl vstd::std_specs::ops::NegSpecImpl for Point {
    open spec fn obeys_neg_spec() -> bool {
        true
    }

    open spec fn neg_req(self) -> bool {
        self.can_scale(-1, -1)
    }

    open spec fn neg_spec(self) -> Point {
        self.scaled(-1, -1)
    }
}

} // verus!
