use vstd::prelude::*;

use super::{Delta, Size};

verus! {

/// Where content sits along one axis of the space available to it.
#[derive(Copy, Clone, Default, Debug, PartialEq, Eq, Structural)]
pub enum Anchor {
    /// At the start: left or top.
    #[default]
    Min,
    /// In the middle.
    Center,
    /// At the end: right or bottom.
    Max,
}

/// Half of `n`, rounded to the nearest integer; a tie goes to the even
/// neighbour.
pub open spec fn half_to_even(n: int) -> int {
    let q = n / 2;
    if n % 2 == 0 || q % 2 == 0 {
        q
    } else {
        q + 1
    }
}

impl Anchor {
    pub const LEFT: Self = Self::Min;

    pub const RIGHT: Self = Self::Max;

    pub const CENTER: Self = Self::Center;

    pub const TOP: Self = Self::Min;

    pub const BOTTOM: Self = Self::Max;

    /// Twice the share of the free space that goes before the content:
    /// 0 at the start, 1 in the middle, 2 at the end.
    pub open spec fn spec_halves(self) -> int {
        match self {
            Anchor::Min => 0,
            Anchor::Center => 1,
            Anchor::Max => 2,
        }
    }

    /// The offset in cells of content of extent `size` within `available`
    /// cells: the free space times the anchor's share, rounded half to even.
    /// It is negative where the content is larger than the space and the
    /// anchor is not at the start.
    pub open spec fn spec_offset(self, available: int, size: int) -> int {
        half_to_even((available - size) * self.spec_halves())
    }

    /// Twice the anchor's share of the free space.
    #[must_use]
    pub fn halves(&self) -> (r: i64)
        ensures
            r == self.spec_halves(),
    {
        match self {
            Self::Min => 0,
            Self::Center => 1,
            Self::Max => 2,
        }
    }

    /// The offset in cells at which content of extent `size` starts within
    /// `available` cells.
    #[must_use]
    pub fn offset(&self, available: u32, size: u32) -> (r: i64)
        ensures
            r == self.spec_offset(available as int, size as int),
            -(u32::MAX as int) <= r <= u32::MAX as int,
    {
        let free: i64 = available as i64 - size as i64;
        match self {
            Self::Min => 0,
            Self::Max => free,
            Self::Center => {
                let q: i64 = if free >= 0 {
                    free / 2
                } else {
                    -((1 - free) / 2)
                };
                if free % 2 == 0 || q % 2 == 0 {
                    q
                } else {
                    q + 1
                }
            },
        }
    }
}

/// An anchor for each axis.
#[derive(Copy, Clone, Default, Debug, PartialEq, Eq, Structural)]
pub struct Anchor2 {
    pub x: Anchor,
    pub y: Anchor,
}

impl Anchor2 {
    #[must_use]
    pub fn left_top() -> (r: Self)
        ensures
            r == (Anchor2 { x: Anchor::Min, y: Anchor::Min }),
    {
        Self { x: Anchor::Min, y: Anchor::Min }
    }

    #[must_use]
    pub fn right_top() -> (r: Self)
        ensures
            r == (Anchor2 { x: Anchor::Max, y: Anchor::Min }),
    {
        Self { x: Anchor::Max, y: Anchor::Min }
    }

    #[must_use]
    pub fn center_top() -> (r: Self)
        ensures
            r == (Anchor2 { x: Anchor::Center, y: Anchor::Min }),
    {
        Self { x: Anchor::Center, y: Anchor::Min }
    }

    #[must_use]
    pub fn left_center() -> (r: Self)
        ensures
            r == (Anchor2 { x: Anchor::Min, y: Anchor::Center }),
    {
        Self { x: Anchor::Min, y: Anchor::Center }
    }

    #[must_use]
    pub fn center_center() -> (r: Self)
        ensures
            r == (Anchor2 { x: Anchor::Center, y: Anchor::Center }),
    {
        Self { x: Anchor::Center, y: Anchor::Center }
    }

    #[must_use]
    pub fn right_center() -> (r: Self)
        ensures
            r == (Anchor2 { x: Anchor::Max, y: Anchor::Center }),
    {
        Self { x: Anchor::Max, y: Anchor::Center }
    }

    #[must_use]
    pub fn left_bottom() -> (r: Self)
        ensures
            r == (Anchor2 { x: Anchor::Min, y: Anchor::Max }),
    {
        Self { x: Anchor::Min, y: Anchor::Max }
    }

    #[must_use]
    pub fn center_bottom() -> (r: Self)
        ensures
            r == (Anchor2 { x: Anchor::Center, y: Anchor::Max }),
    {
        Self { x: Anchor::Center, y: Anchor::Max }
    }

    #[must_use]
    pub fn right_bottom() -> (r: Self)
        ensures
            r == (Anchor2 { x: Anchor::Max, y: Anchor::Max }),
    {
        Self { x: Anchor::Max, y: Anchor::Max }
    }

    /// The offset of content of extent `size` within `available`, each axis
    /// by its own anchor.
    pub open spec fn spec_offset(self, available: Size<u32>, size: Size<u32>) -> Delta<i64> {
        Delta {
            x: self.x.spec_offset(available.width as int, size.width as int) as i64,
            y: self.y.spec_offset(available.height as int, size.height as int) as i64,
        }
    }

    /// The offset in cells at which content of extent `size` starts within
    /// `available`.
    #[must_use]
    pub fn offset(&self, available: Size<u32>, size: Size<u32>) -> (r: Delta<i64>)
        ensures
            r == self.spec_offset(available, size),
            r.x == self.x.spec_offset(available.width as int, size.width as int),
            r.y == self.y.spec_offset(available.height as int, size.height as int),
            -(u32::MAX as int) <= r.x <= u32::MAX as int,
            -(u32::MAX as int) <= r.y <= u32::MAX as int,
    {
        Delta {
            x: self.x.offset(available.width, size.width),
            y: self.y.offset(available.height, size.height),
        }
    }
}

} // verus!
