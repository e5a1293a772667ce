use std::ops::{Add, Div, Mul, Sub};
use vstd::prelude::*;
use vstd::std_specs::cmp::{PartialEqSpec, PartialEqSpecImpl};
use vstd::std_specs::convert::FromSpecImpl;
use vstd::std_specs::ops::{
    AddSpec, AddSpecImpl, DivSpec, DivSpecImpl, MulSpec, MulSpecImpl, NotSpecImpl, SubSpec,
    SubSpecImpl,
};

use super::{Delta, Num, Size};

verus! {

/// A cell coordinate: `x` counts columns, `y` counts rows.
#[derive(Debug, Hash)]
pub struct Position<T: Num = i32> {
    pub x: T,
    pub y: T,
}

impl<T: Num> Clone for Position<T> {
    fn clone(&self) -> (r: Self)
        ensures
            r == *self,
    {
        *self
    }
}

impl<T: Num> Copy for Position<T> {
}

impl<T: Num> Position<T> {
    /// The origin as a specification value.
    pub open spec fn spec_zero() -> Self {
        Position { x: T::ZERO, y: T::ZERO }
    }

    /// The origin.
    #[must_use]
    pub fn zero() -> (r: Self)
        ensures
            r == Self::spec_zero(),
    {
        Self { x: T::ZERO, y: T::ZERO }
    }

    #[must_use]
    pub fn new(x: T, y: T) -> (r: Self)
        ensures
            r.x == x,
            r.y == y,
    {
        Self { x, y }
    }

    /// The componentwise minimum of the two positions.
    #[must_use]
    pub fn min(&self, other: Self) -> (r: Self)
        ensures
            r.x == (if self.x.to_int() <= other.x.to_int() {
                self.x
            } else {
                other.x
            }),
            r.y == (if self.y.to_int() <= other.y.to_int() {
                self.y
            } else {
                other.y
            }),
    {
        Self { x: self.x.min(other.x), y: self.y.min(other.y) }
    }

    /// The componentwise maximum of the two positions.
    #[must_use]
    pub fn max(&self, other: Self) -> (r: Self)
        ensures
            r.x == (if other.x.to_int() <= self.x.to_int() {
                self.x
            } else {
                other.x
            }),
            r.y == (if other.y.to_int() <= self.y.to_int() {
                self.y
            } else {
                other.y
            }),
    {
        Self { x: self.x.max(other.x), y: self.y.max(other.y) }
    }

    /// Each component restricted to the interval that `min` and `max` give
    /// for it.
    #[must_use]
    pub fn clamp(&self, min: Self, max: Self) -> (r: Self)
        requires
            min.x.to_int() <= max.x.to_int(),
            min.y.to_int() <= max.y.to_int(),
        ensures
            r.x == (if self.x.to_int() < min.x.to_int() {
                min.x
            } else if max.x.to_int() < self.x.to_int() {
                max.x
            } else {
                self.x
            }),
            r.y == (if self.y.to_int() < min.y.to_int() {
                min.y
            } else if max.y.to_int() < self.y.to_int() {
                max.y
            } else {
                self.y
            }),
    {
        Self { x: self.x.clamp(min.x, max.x), y: self.y.clamp(min.y, max.y) }
    }

    /// The same pair of numbers read as a width and a height.
    #[must_use]
    pub fn to_size(&self) -> (r: Size<T>)
        ensures
            r.width == self.x,
            r.height == self.y,
    {
        Size { width: self.x, height: self.y }
    }
}

impl Position<i32> {
    /// The displacement that leads from `self` to `other`.
    #[must_use]
    pub fn delta(self, other: Self) -> (r: Delta<i32>)
        requires
            i32::MIN <= other.x - self.x <= i32::MAX,
            i32::MIN <= other.y - self.y <= i32::MAX,
        ensures
            r.x == other.x - self.x,
            r.y == other.y - self.y,
    {
        Delta { x: other.x - self.x, y: other.y - self.y }
    }

    /// The same position with unsigned coordinates.
    #[must_use]
    pub fn to_unsigned(self) -> (r: Position<u32>)
        requires
            self.x >= 0,
            self.y >= 0,
        ensures
            r.x == self.x,
            r.y == self.y,
    {
        Position { x: self.x as u32, y: self.y as u32 }
    }

    /// The same position with unsigned coordinates, or `None` when a
    /// coordinate is negative.
    #[must_use]
    pub fn to_unsigned_checked(self) -> (r: Option<Position<u32>>)
        ensures
            r is Some <==> self.x >= 0 && self.y >= 0,
            r is Some ==> r.unwrap().x == self.x && r.unwrap().y == self.y,
    {
        if self.x < 0 || self.y < 0 {
            return None;
        }
        Some(Position { x: self.x as u32, y: self.y as u32 })
    }
}

impl std::ops::Not for Position<i32> {
    type Output = Self;

    /// Both coordinates negated.
    fn not(self) -> (r: Self) {
        Self { x: -self.x, y: -self.y }
    }
}

impl NotSpecImpl for Position<i32> {
    open spec fn obeys_not_spec() -> bool {
        true
    }

    open spec fn not_req(self) -> bool {
        self.x != i32::MIN && self.y != i32::MIN
    }

    open spec fn not_spec(self) -> Self {
        Position { x: (-self.x) as i32, y: (-self.y) as i32 }
    }
}

impl Position<u32> {
    /// The same position with signed coordinates.
    #[must_use]
    pub fn to_signed(self) -> (r: Position<i32>)
        requires
            self.x <= i32::MAX,
            self.y <= i32::MAX,
        ensures
            r.x == self.x,
            r.y == self.y,
    {
        Position { x: self.x as i32, y: self.y as i32 }
    }

    /// The same position with signed coordinates, or `None` when a coordinate
    /// is too large for one.
    #[must_use]
    pub fn to_signed_checked(self) -> (r: Option<Position<i32>>)
        ensures
            r is Some <==> self.x <= i32::MAX && self.y <= i32::MAX,
            r is Some ==> r.unwrap().x == self.x && r.unwrap().y == self.y,
    {
        if self.x > 0x7fff_ffff || self.y > 0x7fff_ffff {
            return None;
        }
        Some(Position { x: self.x as i32, y: self.y as i32 })
    }
}

impl<T: Num + PartialEq> PartialEq for Position<T> {
    fn eq(&self, other: &Self) -> (r: bool) {
        self.x == other.x && self.y == other.y
    }
}

impl<T: Num + PartialEq> PartialEqSpecImpl for Position<T> {
    open spec fn obeys_eq_spec() -> bool {
        <T as PartialEqSpec>::obeys_eq_spec()
    }

    open spec fn eq_spec(&self, other: &Self) -> bool {
        self.x.eq_spec(&other.x) && self.y.eq_spec(&other.y)
    }
}

impl<T: Num + Eq> Eq for Position<T> {
}

impl<T: Num> Default for Position<T> {
    fn default() -> (r: Self)
        ensures
            r == Self::spec_zero(),
    {
        Self { x: T::ZERO, y: T::ZERO }
    }
}

impl<T: Num> Add for Position<T> {
    type Output = Self;

    /// Componentwise sum.
    fn add(self, rhs: Self) -> (r: Self) {
        Self { x: self.x + rhs.x, y: self.y + rhs.y }
    }
}

impl<T: Num> AddSpecImpl for Position<T> {
    open spec fn obeys_add_spec() -> bool {
        <T as AddSpec>::obeys_add_spec()
    }

    open spec fn add_req(self, rhs: Self) -> bool {
        self.x.add_req(rhs.x) && self.y.add_req(rhs.y)
    }

    open spec fn add_spec(self, rhs: Self) -> Self {
        Position { x: self.x.add_spec(rhs.x), y: self.y.add_spec(rhs.y) }
    }
}

impl<T: Num> Add<T> for Position<T> {
    type Output = Self;

    /// Adds `rhs` to both components.
    fn add(self, rhs: T) -> (r: Self) {
        Self { x: self.x + rhs, y: self.y + rhs }
    }
}

impl<T: Num> AddSpecImpl<T> for Position<T> {
    open spec fn obeys_add_spec() -> bool {
        <T as AddSpec>::obeys_add_spec()
    }

    open spec fn add_req(self, rhs: T) -> bool {
        self.x.add_req(rhs) && self.y.add_req(rhs)
    }

    open spec fn add_spec(self, rhs: T) -> Self {
        Position { x: self.x.add_spec(rhs), y: self.y.add_spec(rhs) }
    }
}

impl<T: Num> Sub for Position<T> {
    type Output = Self;

    /// Componentwise difference.
    fn sub(self, rhs: Self) -> (r: Self) {
        Self { x: self.x - rhs.x, y: self.y - rhs.y }
    }
}

impl<T: Num> SubSpecImpl for Position<T> {
    open spec fn obeys_sub_spec() -> bool {
        <T as SubSpec>::obeys_sub_spec()
    }

    open spec fn sub_req(self, rhs: Self) -> bool {
        self.x.sub_req(rhs.x) && self.y.sub_req(rhs.y)
    }

    open spec fn sub_spec(self, rhs: Self) -> Self {
        Position { x: self.x.sub_spec(rhs.x), y: self.y.sub_spec(rhs.y) }
    }
}

impl<T: Num> Sub<T> for Position<T> {
    type Output = Self;

    /// Subtracts `rhs` from both components.
    fn sub(self, rhs: T) -> (r: Self) {
        Self { x: self.x - rhs, y: self.y - rhs }
    }
}

impl<T: Num> SubSpecImpl<T> for Position<T> {
    open spec fn obeys_sub_spec() -> bool {
        <T as SubSpec>::obeys_sub_spec()
    }

    open spec fn sub_req(self, rhs: T) -> bool {
        self.x.sub_req(rhs) && self.y.sub_req(rhs)
    }

    open spec fn sub_spec(self, rhs: T) -> Self {
        Position { x: self.x.sub_spec(rhs), y: self.y.sub_spec(rhs) }
    }
}

impl<T: Num> Mul for Position<T> {
    type Output = Self;

    /// Componentwise product.
    fn mul(self, rhs: Self) -> (r: Self) {
        Self { x: self.x * rhs.x, y: self.y * rhs.y }
    }
}

impl<T: Num> MulSpecImpl for Position<T> {
    open spec fn obeys_mul_spec() -> bool {
        <T as MulSpec>::obeys_mul_spec()
    }

    open spec fn mul_req(self, rhs: Self) -> bool {
        self.x.mul_req(rhs.x) && self.y.mul_req(rhs.y)
    }

    open spec fn mul_spec(self, rhs: Self) -> Self {
        Position { x: self.x.mul_spec(rhs.x), y: self.y.mul_spec(rhs.y) }
    }
}

impl<T: Num> Mul<T> for Position<T> {
    type Output = Self;

    /// Multiplies both components by `rhs`.
    fn mul(self, rhs: T) -> (r: Self) {
        Self { x: self.x * rhs, y: self.y * rhs }
    }
}

impl<T: Num> MulSpecImpl<T> for Position<T> {
    open spec fn obeys_mul_spec() -> bool {
        <T as MulSpec>::obeys_mul_spec()
    }

    open spec fn mul_req(self, rhs: T) -> bool {
        self.x.mul_req(rhs) && self.y.mul_req(rhs)
    }

    open spec fn mul_spec(self, rhs: T) -> Self {
        Position { x: self.x.mul_spec(rhs), y: self.y.mul_spec(rhs) }
    }
}

impl<T: Num> Div for Position<T> {
    type Output = Self;

    /// Componentwise quotient.
    fn div(self, rhs: Self) -> (r: Self) {
        Self { x: self.x / rhs.x, y: self.y / rhs.y }
    }
}

impl<T: Num> DivSpecImpl for Position<T> {
    open spec fn obeys_div_spec() -> bool {
        <T as DivSpec>::obeys_div_spec()
    }

    open spec fn div_req(self, rhs: Self) -> bool {
        self.x.div_req(rhs.x) && self.y.div_req(rhs.y)
    }

    open spec fn div_spec(self, rhs: Self) -> Self {
        Position { x: self.x.div_spec(rhs.x), y: self.y.div_spec(rhs.y) }
    }
}

impl<T: Num> Div<T> for Position<T> {
    type Output = Self;

    /// Divides both components by `rhs`.
    fn div(self, rhs: T) -> (r: Self) {
        Self { x: self.x / rhs, y: self.y / rhs }
    }
}

impl<T: Num> DivSpecImpl<T> for Position<T> {
    open spec fn obeys_div_spec() -> bool {
        <T as DivSpec>::obeys_div_spec()
    }

    open spec fn div_req(self, rhs: T) -> bool {
        self.x.div_req(rhs) && self.y.div_req(rhs)
    }

    open spec fn div_spec(self, rhs: T) -> Self {
        Position { x: self.x.div_spec(rhs), y: self.y.div_spec(rhs) }
    }
}

impl<T: Num> From<(T, T)> for Position<T> {
    fn from(pair: (T, T)) -> (r: Self) {
        Self { x: pair.0, y: pair.1 }
    }
}

impl<T: Num> FromSpecImpl<(T, T)> for Position<T> {
    open spec fn obeys_from_spec() -> bool {
        true
    }

    open spec fn from_spec(pair: (T, T)) -> Self {
        Position { x: pair.0, y: pair.1 }
    }
}

impl<T: Num> From<[T; 2]> for Position<T> {
    fn from(pair: [T; 2]) -> (r: Self) {
        Self { x: pair[0], y: pair[1] }
    }
}

impl<T: Num> FromSpecImpl<[T; 2]> for Position<T> {
    open spec fn obeys_from_spec() -> bool {
        true
    }

    open spec fn from_spec(pair: [T; 2]) -> Self {
        Position { x: pair[0], y: pair[1] }
    }
}

impl<T: Num> From<T> for Position<T> {
    fn from(val: T) -> (r: Self) {
        Self { x: val, y: val }
    }
}

impl<T: Num> FromSpecImpl<T> for Position<T> {
    open spec fn obeys_from_spec() -> bool {
        true
    }

    open spec fn from_spec(val: T) -> Self {
        Position { x: val, y: val }
    }
}

impl<T: Num> From<Position<T>> for (T, T) {
    fn from(this: Position<T>) -> (r: Self) {
        (this.x, this.y)
    }
}

impl<T: Num> FromSpecImpl<Position<T>> for (T, T) {
    open spec fn obeys_from_spec() -> bool {
        true
    }

    open spec fn from_spec(this: Position<T>) -> Self {
        (this.x, this.y)
    }
}

impl<T: Num> From<Position<T>> for [T; 2] {
    fn from(this: Position<T>) -> (r: Self) {
        [this.x, this.y]
    }
}

impl<T: Num> FromSpecImpl<Position<T>> for [T; 2] {
    open spec fn obeys_from_spec() -> bool {
        true
    }

    open spec fn from_spec(this: Position<T>) -> Self {
        [this.x, this.y]
    }
}

} // verus!
