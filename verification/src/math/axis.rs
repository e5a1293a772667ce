use vstd::prelude::*;
use vstd::std_specs::convert::{FromSpec, IntoSpec};
use vstd::std_specs::ops::NotSpecImpl;

verus! {

/// `From<T> for T` of the standard library, the conversion of a value to its
/// own type: it returns its argument unchanged.
pub assume_specification<Itself>[ <Itself as From<Itself>>::from ](t: Itself) -> (r: Itself)
    ensures
        r == t,
;

/// The pair `(main, cross)` seen along `axis`: as it is along the horizontal
/// axis, and with its two components exchanged along the vertical one.
pub open spec fn along<T>(axis: Axis, pair: (T, T)) -> (T, T) {
    match axis {
        Axis::Horizontal => pair,
        Axis::Vertical => (pair.1, pair.0),
    }
}

/// One of the two axes of the cell grid.
#[derive(Copy, Clone, Default, Debug, PartialEq, Eq, Structural)]
pub enum Axis {
    #[default]
    Horizontal,
    Vertical,
}

impl Axis {
    /// The component of `value` that lies along this axis.
    #[must_use]
    pub fn main<T, V: Into<(T, T)>>(&self, value: V) -> (r: T)
        ensures
            exists|pair: (T, T)| #[trigger]
                call_ensures(<V as Into<(T, T)>>::into, (value,), pair) && r == along(
                    *self,
                    pair,
                ).0,
            V::obeys_into_spec() ==> r == along(*self, value.into_spec()).0,
    {
        let pair: (T, T) = value.into();
        match self {
            Self::Horizontal => pair.0,
            Self::Vertical => pair.1,
        }
    }

    /// The component of `value` that lies across this axis.
    #[must_use]
    pub fn cross<T, V: Into<(T, T)>>(&self, value: V) -> (r: T)
        ensures
            exists|pair: (T, T)| #[trigger]
                call_ensures(<V as Into<(T, T)>>::into, (value,), pair) && r == along(
                    *self,
                    pair,
                ).1,
            V::obeys_into_spec() ==> r == along(*self, value.into_spec()).1,
    {
        let pair: (T, T) = value.into();
        match self {
            Self::Horizontal => pair.1,
            Self::Vertical => pair.0,
        }
    }

    /// Builds a pair-like value from a component along this axis and one
    /// across it.
    #[must_use]
    pub fn pack<T, R: From<(T, T)>>(&self, main: T, cross: T) -> (r: R)
        ensures
            call_ensures(R::from, (along(*self, (main, cross)),), r),
            R::obeys_from_spec() ==> r == R::from_spec(along(*self, (main, cross))),
    {
        match self {
            Self::Horizontal => R::from((main, cross)),
            Self::Vertical => R::from((cross, main)),
        }
    }

    /// Splits `value` into its component along this axis and the one across.
    #[must_use]
    pub fn unpack<T, V: Into<(T, T)>>(&self, value: V) -> (r: (T, T))
        ensures
            exists|pair: (T, T)| #[trigger]
                call_ensures(<V as Into<(T, T)>>::into, (value,), pair) && r == along(*self, pair),
            V::obeys_into_spec() ==> r == along(*self, value.into_spec()),
    {
        let pair: (T, T) = value.into();
        match self {
            Self::Horizontal => pair,
            Self::Vertical => (pair.1, pair.0),
        }
    }

    #[must_use]
    pub fn is_vertical(&self) -> (r: bool)
        ensures
            r == (*self == Axis::Vertical),
    {
        matches!(self, Self::Vertical)
    }

    #[must_use]
    pub fn is_horizontal(&self) -> (r: bool)
        ensures
            r == (*self == Axis::Horizontal),
    {
        matches!(self, Self::Horizontal)
    }
}

impl std::ops::Not for Axis {
    type Output = Self;

    /// The other axis.
    fn not(self) -> (r: Self) {
        match self {
            Self::Horizontal => Self::Vertical,
            Self::Vertical => Self::Horizontal,
        }
    }
}

impl NotSpecImpl for Axis {
    open spec fn obeys_not_spec() -> bool {
        true
    }

    open spec fn not_req(self) -> bool {
        true
    }

    open spec fn not_spec(self) -> Self {
        match self {
            Axis::Horizontal => Axis::Vertical,
            Axis::Vertical => Axis::Horizontal,
        }
    }
}

} // verus!
