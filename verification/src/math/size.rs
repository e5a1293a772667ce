use std::ops::{Add, Div, Mul, Sub};
use vstd::prelude::*;
use vstd::std_specs::cmp::{PartialEqSpec, PartialEqSpecImpl};
use vstd::std_specs::convert::FromSpecImpl;
use vstd::std_specs::ops::{
    AddSpec, AddSpecImpl, DivSpec, DivSpecImpl, MulSpec, MulSpecImpl, SubSpec, SubSpecImpl,
};

use super::{Num, Position};

verus! {

/// An extent in cells.
#[derive(Debug, Hash)]
pub struct Size<T: Num = u32> {
    pub width: T,
    pub height: T,
}

impl<T: Num> Clone for Size<T> {
    fn clone(&self) -> (r: Self)
        ensures
            r == *self,
    {
        *self
    }
}

impl<T: Num> Copy for Size<T> {
}

impl<T: Num> Size<T> {
    /// The empty extent as a specification value.
    pub open spec fn spec_zero() -> Self {
        Size { width: T::ZERO, height: T::ZERO }
    }

    /// The empty extent.
    #[must_use]
    pub fn zero() -> (r: Self)
        ensures
            r == Self::spec_zero(),
    {
        Self { width: T::ZERO, height: T::ZERO }
    }

    #[must_use]
    pub fn new(width: T, height: T) -> (r: Self)
        ensures
            r.width == width,
            r.height == height,
    {
        Self { width, height }
    }

    /// Width times height.
    #[must_use]
    pub fn area(&self) -> (r: T)
        requires
            self.width.mul_req(self.height),
        ensures
            <T as MulSpec>::obeys_mul_spec() ==> r == self.width.mul_spec(self.height),
    {
        self.width * self.height
    }

    /// The componentwise minimum of the two sizes.
    #[must_use]
    pub fn min(&self, other: Self) -> (r: Self)
        ensures
            r.width == (if self.width.to_int() <= other.width.to_int() {
                self.width
            } else {
                other.width
            }),
            r.height == (if self.height.to_int() <= other.height.to_int() {
                self.height
            } else {
                other.height
            }),
    {
        Self { width: self.width.min(other.width), height: self.height.min(other.height) }
    }

    /// The componentwise maximum of the two sizes.
    #[must_use]
    pub fn max(&self, other: Self) -> (r: Self)
        ensures
            r.width == (if other.width.to_int() <= self.width.to_int() {
                self.width
            } else {
                other.width
            }),
            r.height == (if other.height.to_int() <= self.height.to_int() {
                self.height
            } else {
                other.height
            }),
    {
        Self { width: self.width.max(other.width), height: self.height.max(other.height) }
    }

    /// Each component restricted to the interval that `min` and `max` give
    /// for it.
    #[must_use]
    pub fn clamp(&self, min: Self, max: Self) -> (r: Self)
        requires
            min.width.to_int() <= max.width.to_int(),
            min.height.to_int() <= max.height.to_int(),
        ensures
            r.width == (if self.width.to_int() < min.width.to_int() {
                min.width
            } else if max.width.to_int() < self.width.to_int() {
                max.width
            } else {
                self.width
            }),
            r.height == (if self.height.to_int() < min.height.to_int() {
                min.height
            } else if max.height.to_int() < self.height.to_int() {
                max.height
            } else {
                self.height
            }),
    {
        Self {
            width: self.width.clamp(min.width, max.width),
            height: self.height.clamp(min.height, max.height),
        }
    }

    /// The same pair of numbers read as a column and a row.
    #[must_use]
    pub fn to_position(&self) -> (r: Position<T>)
        ensures
            r.x == self.width,
            r.y == self.height,
    {
        Position { x: self.width, y: self.height }
    }
}

impl Size<i32> {
    /// The same size with unsigned components.
    #[must_use]
    pub fn to_unsigned(&self) -> (r: Size<u32>)
        requires
            self.width >= 0,
            self.height >= 0,
        ensures
            r.width == self.width,
            r.height == self.height,
    {
        Size { width: self.width as u32, height: self.height as u32 }
    }

    /// The same size with unsigned components, or `None` when a component is
    /// negative.
    #[must_use]
    pub fn to_unsigned_checked(&self) -> (r: Option<Size<u32>>)
        ensures
            r is Some <==> self.width >= 0 && self.height >= 0,
            r is Some ==> r.unwrap().width == self.width && r.unwrap().height == self.height,
    {
        if self.width < 0 || self.height < 0 {
            return None;
        }
        Some(Size { width: self.width as u32, height: self.height as u32 })
    }
}

impl Size<u32> {
    /// The same size with signed components.
    #[must_use]
    pub fn to_signed(&self) -> (r: Size<i32>)
        requires
            self.width <= i32::MAX,
            self.height <= i32::MAX,
        ensures
            r.width == self.width,
            r.height == self.height,
    {
        Size { width: self.width as i32, height: self.height as i32 }
    }

    /// The same size with signed components, or `None` when a component is
    /// too large for one.
    #[must_use]
    pub fn to_signed_checked(&self) -> (r: Option<Size<i32>>)
        ensures
            r is Some <==> self.width <= i32::MAX && self.height <= i32::MAX,
            r is Some ==> r.unwrap().width == self.width && r.unwrap().height == self.height,
    {
        if self.width > 0x7fff_ffff || self.height > 0x7fff_ffff {
            return None;
        }
        Some(Size { width: self.width as i32, height: self.height as i32 })
    }
}

impl<T: Num + PartialEq> PartialEq for Size<T> {
    fn eq(&self, other: &Self) -> (r: bool) {
        self.width == other.width && self.height == other.height
    }
}

impl<T: Num + PartialEq> PartialEqSpecImpl for Size<T> {
    open spec fn obeys_eq_spec() -> bool {
        <T as PartialEqSpec>::obeys_eq_spec()
    }

    open spec fn eq_spec(&self, other: &Self) -> bool {
        self.width.eq_spec(&other.width) && self.height.eq_spec(&other.height)
    }
}

impl<T: Num + Eq> Eq for Size<T> {
}

impl<T: Num> Default for Size<T> {
    fn default() -> (r: Self)
        ensures
            r == Self::spec_zero(),
    {
        Self { width: T::ZERO, height: T::ZERO }
    }
}

impl<T: Num> Add for Size<T> {
    type Output = Self;

    /// Componentwise sum.
    fn add(self, rhs: Self) -> (r: Self) {
        Self { width: self.width + rhs.width, height: self.height + rhs.height }
    }
}

impl<T: Num> AddSpecImpl for Size<T> {
    open spec fn obeys_add_spec() -> bool {
        <T as AddSpec>::obeys_add_spec()
    }

    open spec fn add_req(self, rhs: Self) -> bool {
        self.width.add_req(rhs.width) && self.height.add_req(rhs.height)
    }

    open spec fn add_spec(self, rhs: Self) -> Self {
        Size { width: self.width.add_spec(rhs.width), height: self.height.add_spec(rhs.height) }
    }
}

impl<T: Num> Add<T> for Size<T> {
    type Output = Self;

    /// Adds `rhs` to both components.
    fn add(self, rhs: T) -> (r: Self) {
        Self { width: self.width + rhs, height: self.height + rhs }
    }
}

impl<T: Num> AddSpecImpl<T> for Size<T> {
    open spec fn obeys_add_spec() -> bool {
        <T as AddSpec>::obeys_add_spec()
    }

    open spec fn add_req(self, rhs: T) -> bool {
        self.width.add_req(rhs) && self.height.add_req(rhs)
    }

    open spec fn add_spec(self, rhs: T) -> Self {
        Size { width: self.width.add_spec(rhs), height: self.height.add_spec(rhs) }
    }
}

impl<T: Num> Sub for Size<T> {
    type Output = Self;

    /// Componentwise difference.
    fn sub(self, rhs: Self) -> (r: Self) {
        Self { width: self.width - rhs.width, height: self.height - rhs.height }
    }
}

impl<T: Num> SubSpecImpl for Size<T> {
    open spec fn obeys_sub_spec() -> bool {
        <T as SubSpec>::obeys_sub_spec()
    }

    open spec fn sub_req(self, rhs: Self) -> bool {
        self.width.sub_req(rhs.width) && self.height.sub_req(rhs.height)
    }

    open spec fn sub_spec(self, rhs: Self) -> Self {
        Size { width: self.width.sub_spec(rhs.width), height: self.height.sub_spec(rhs.height) }
    }
}

impl<T: Num> Sub<T> for Size<T> {
    type Output = Self;

    /// Subtracts `rhs` from both components.
    fn sub(self, rhs: T) -> (r: Self) {
        Self { width: self.width - rhs, height: self.height - rhs }
    }
}

impl<T: Num> SubSpecImpl<T> for Size<T> {
    open spec fn obeys_sub_spec() -> bool {
        <T as SubSpec>::obeys_sub_spec()
    }

    open spec fn sub_req(self, rhs: T) -> bool {
        self.width.sub_req(rhs) && self.height.sub_req(rhs)
    }

    open spec fn sub_spec(self, rhs: T) -> Self {
        Size { width: self.width.sub_spec(rhs), height: self.height.sub_spec(rhs) }
    }
}

impl<T: Num> Mul for Size<T> {
    type Output = Self;

    /// Componentwise product.
    fn mul(self, rhs: Self) -> (r: Self) {
        Self { width: self.width * rhs.width, height: self.height * rhs.height }
    }
}

impl<T: Num> MulSpecImpl for Size<T> {
    open spec fn obeys_mul_spec() -> bool {
        <T as MulSpec>::obeys_mul_spec()
    }

    open spec fn mul_req(self, rhs: Self) -> bool {
        self.width.mul_req(rhs.width) && self.height.mul_req(rhs.height)
    }

    open spec fn mul_spec(self, rhs: Self) -> Self {
        Size { width: self.width.mul_spec(rhs.width), height: self.height.mul_spec(rhs.height) }
    }
}

impl<T: Num> Mul<T> for Size<T> {
    type Output = Self;

    /// Multiplies both components by `rhs`.
    fn mul(self, rhs: T) -> (r: Self) {
        Self { width: self.width * rhs, height: self.height * rhs }
    }
}

impl<T: Num> MulSpecImpl<T> for Size<T> {
    open spec fn obeys_mul_spec() -> bool {
        <T as MulSpec>::obeys_mul_spec()
    }

    open spec fn mul_req(self, rhs: T) -> bool {
        self.width.mul_req(rhs) && self.height.mul_req(rhs)
    }

    open spec fn mul_spec(self, rhs: T) -> Self {
        Size { width: self.width.mul_spec(rhs), height: self.height.mul_spec(rhs) }
    }
}

impl<T: Num> Div for Size<T> {
    type Output = Self;

    /// Componentwise quotient.
    fn div(self, rhs: Self) -> (r: Self) {
        Self { width: self.width / rhs.width, height: self.height / rhs.height }
    }
}

impl<T: Num> DivSpecImpl for Size<T> {
    open spec fn obeys_div_spec() -> bool {
        <T as DivSpec>::obeys_div_spec()
    }

    open spec fn div_req(self, rhs: Self) -> bool {
        self.width.div_req(rhs.width) && self.height.div_req(rhs.height)
    }

    open spec fn div_spec(self, rhs: Self) -> Self {
        Size { width: self.width.div_spec(rhs.width), height: self.height.div_spec(rhs.height) }
    }
}

impl<T: Num> Div<T> for Size<T> {
    type Output = Self;

    /// Divides both components by `rhs`.
    fn div(self, rhs: T) -> (r: Self) {
        Self { width: self.width / rhs, height: self.height / rhs }
    }
}

impl<T: Num> DivSpecImpl<T> for Size<T> {
    open spec fn obeys_div_spec() -> bool {
        <T as DivSpec>::obeys_div_spec()
    }

    open spec fn div_req(self, rhs: T) -> bool {
        self.width.div_req(rhs) && self.height.div_req(rhs)
    }

    open spec fn div_spec(self, rhs: T) -> Self {
        Size { width: self.width.div_spec(rhs), height: self.height.div_spec(rhs) }
    }
}

impl<T: Num> From<(T, T)> for Size<T> {
    fn from(pair: (T, T)) -> (r: Self) {
        Self { width: pair.0, height: pair.1 }
    }
}

impl<T: Num> FromSpecImpl<(T, T)> for Size<T> {
    open spec fn obeys_from_spec() -> bool {
        true
    }

    open spec fn from_spec(pair: (T, T)) -> Self {
        Size { width: pair.0, height: pair.1 }
    }
}

impl<T: Num> From<[T; 2]> for Size<T> {
    fn from(pair: [T; 2]) -> (r: Self) {
        Self { width: pair[0], height: pair[1] }
    }
}

impl<T: Num> FromSpecImpl<[T; 2]> for Size<T> {
    open spec fn obeys_from_spec() -> bool {
        true
    }

    open spec fn from_spec(pair: [T; 2]) -> Self {
        Size { width: pair[0], height: pair[1] }
    }
}

impl<T: Num> From<T> for Size<T> {
    fn from(val: T) -> (r: Self) {
        Self { width: val, height: val }
    }
}

impl<T: Num> FromSpecImpl<T> for Size<T> {
    open spec fn obeys_from_spec() -> bool {
        true
    }

    open spec fn from_spec(val: T) -> Self {
        Size { width: val, height: val }
    }
}

impl<T: Num> From<Size<T>> for (T, T) {
    fn from(this: Size<T>) -> (r: Self) {
        (this.width, this.height)
    }
}

impl<T: Num> FromSpecImpl<Size<T>> for (T, T) {
    open spec fn obeys_from_spec() -> bool {
        true
    }

    open spec fn from_spec(this: Size<T>) -> Self {
        (this.width, this.height)
    }
}

impl<T: Num> From<Size<T>> for [T; 2] {
    fn from(this: Size<T>) -> (r: Self) {
        [this.width, this.height]
    }
}

impl<T: Num> FromSpecImpl<Size<T>> for [T; 2] {
    open spec fn obeys_from_spec() -> bool {
        true
    }

    open spec fn from_spec(this: Size<T>) -> Self {
        [this.width, this.height]
    }
}

} // verus!
