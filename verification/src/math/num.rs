use std::ops::{Add, Div, Mul, Sub};
use vstd::prelude::*;

verus! {

/// The coordinate types that positions, sizes and margins are built over.
///
/// `to_int` is the mathematical value of a coordinate; the three ordering
/// helpers are stated over it.
pub trait Num: Copy + Sized + Add<Output = Self> + Sub<Output = Self> + Mul<Output = Self> + Div<
    Output = Self,
> {
    const MIN: Self;

    const MAX: Self;

    const ZERO: Self;

    const ONE: Self;

    /// The integer this coordinate stands for.
    spec fn to_int(self) -> int;

    /// The smaller of the two values.
    fn min(self, other: Self) -> (r: Self)
        ensures
            r == (if self.to_int() <= other.to_int() {
                self
            } else {
                other
            }),
    ;

    /// The larger of the two values.
    fn max(self, other: Self) -> (r: Self)
        ensures
            r == (if other.to_int() <= self.to_int() {
                self
            } else {
                other
            }),
    ;

    /// `self` restricted to the closed interval from `min` to `max`.
    fn clamp(self, min: Self, max: Self) -> (r: Self)
        requires
            min.to_int() <= max.to_int(),
        ensures
            r == (if self.to_int() < min.to_int() {
                min
            } else if max.to_int() < self.to_int() {
                max
            } else {
                self
            }),
    ;
}

impl Num for i32 {
    const MIN: Self = i32::MIN;

    const MAX: Self = i32::MAX;

    const ZERO: Self = 0;

    const ONE: Self = 1;

    open spec fn to_int(self) -> int {
        self as int
    }

    fn min(self, other: Self) -> (r: Self) {
        if self <= other {
            self
        } else {
            other
        }
    }

    fn max(self, other: Self) -> (r: Self) {
        if other <= self {
            self
        } else {
            other
        }
    }

    fn clamp(self, min: Self, max: Self) -> (r: Self) {
        if self < min {
            min
        } else if max < self {
            max
        } else {
            self
        }
    }
}

impl Num for u32 {
    const MIN: Self = u32::MIN;

    const MAX: Self = u32::MAX;

    const ZERO: Self = 0;

    const ONE: Self = 1;

    open spec fn to_int(self) -> int {
        self as int
    }

    fn min(self, other: Self) -> (r: Self) {
        if self <= other {
            self
        } else {
            other
        }
    }

    fn max(self, other: Self) -> (r: Self) {
        if other <= self {
            self
        } else {
            other
        }
    }

    fn clamp(self, min: Self, max: Self) -> (r: Self) {
        if self < min {
            min
        } else if max < self {
            max
        } else {
            self
        }
    }
}

} // verus!
