use vstd::prelude::*;
use vstd::std_specs::ops::AddSpec;

use super::{Num, Position, Size};

verus! {

/// Space kept free on the four sides of a rectangle.
#[derive(Debug)]
pub struct Margin<T: Num = u32> {
    pub left: T,
    pub right: T,
    pub top: T,
    pub bottom: T,
}

impl<T: Num> Clone for Margin<T> {
    fn clone(&self) -> (r: Self)
        ensures
            r == *self,
    {
        *self
    }
}

impl<T: Num> Copy for Margin<T> {
}

impl<T: Num> Margin<T> {
    /// No margin on any side.
    #[must_use]
    pub fn zero() -> (r: Self)
        ensures
            r.left == T::ZERO,
            r.right == T::ZERO,
            r.top == T::ZERO,
            r.bottom == T::ZERO,
    {
        Self::same(T::ZERO)
    }

    /// One cell on every side.
    #[must_use]
    pub fn one() -> (r: Self)
        ensures
            r.left == T::ONE,
            r.right == T::ONE,
            r.top == T::ONE,
            r.bottom == T::ONE,
    {
        Self::same(T::ONE)
    }

    #[must_use]
    pub fn new(left: T, right: T, top: T, bottom: T) -> (r: Self)
        ensures
            r.left == left,
            r.right == right,
            r.top == top,
            r.bottom == bottom,
    {
        Self { left, right, top, bottom }
    }

    /// `x` on the left and right, `y` on the top and bottom.
    #[must_use]
    pub fn symmetric(x: T, y: T) -> (r: Self)
        ensures
            r.left == x,
            r.right == x,
            r.top == y,
            r.bottom == y,
    {
        Self { left: x, right: x, top: y, bottom: y }
    }

    /// The same margin on every side.
    #[must_use]
    pub fn same(margin: T) -> (r: Self)
        ensures
            r.left == margin,
            r.right == margin,
            r.top == margin,
            r.bottom == margin,
    {
        Self::symmetric(margin, margin)
    }

    /// The total space taken horizontally and vertically.
    #[must_use]
    pub fn sum(&self) -> (r: Size<T>)
        requires
            self.left.add_req(self.right),
            self.top.add_req(self.bottom),
        ensures
            <T as AddSpec>::obeys_add_spec() ==> r.width == self.left.add_spec(self.right)
                && r.height == self.top.add_spec(self.bottom),
    {
        Size { width: self.left + self.right, height: self.top + self.bottom }
    }

    /// The margins that meet at the top left corner.
    #[must_use]
    pub fn left_top(&self) -> (r: Position<T>)
        ensures
            r.x == self.left,
            r.y == self.top,
    {
        Position { x: self.left, y: self.top }
    }

    /// The margins that meet at the bottom right corner.
    #[must_use]
    pub fn right_bottom(&self) -> (r: Position<T>)
        ensures
            r.x == self.right,
            r.y == self.bottom,
    {
        Position { x: self.right, y: self.bottom }
    }
}

} // verus!
