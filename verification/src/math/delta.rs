use vstd::prelude::*;

verus! {

/// A displacement between two positions.
#[derive(Debug, Default, PartialEq, PartialOrd, Eq, Ord, Hash)]
pub struct Delta<T> {
    pub x: T,
    pub y: T,
}

impl<T: Copy> Clone for Delta<T> {
    fn clone(&self) -> (r: Self)
        ensures
            r == *self,
    {
        *self
    }
}

impl<T: Copy> Copy for Delta<T> {
}

impl<T> Delta<T> {
    pub fn new(x: T, y: T) -> (r: Self)
        ensures
            r.x == x,
            r.y == y,
    {
        Self { x, y }
    }
}

impl Delta<i32> {
    /// No displacement.
    pub fn zero() -> (r: Self)
        ensures
            r.x == 0,
            r.y == 0,
    {
        Self { x: 0, y: 0 }
    }

    /// One cell right and one cell down.
    pub fn one() -> (r: Self)
        ensures
            r.x == 1,
            r.y == 1,
    {
        Self { x: 1, y: 1 }
    }
}

} // verus!
