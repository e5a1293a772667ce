//! Text attributes of a cell.

use std::ops::{BitAnd, BitOr, Not};
use vstd::prelude::*;
use vstd::std_specs::ops::{BitAndSpecImpl, BitOrSpecImpl, NotSpecImpl};

verus! {

/// A set of text attributes, or the request to reset them all.
///
/// The stored number is never zero. The reset request is stored as
/// `u16::MAX` and carries no flag; any other value is a set of flags with at
/// least one member.
#[derive(Copy, Clone, Debug, PartialEq, PartialOrd, Eq, Ord, Hash, Structural)]
pub struct Attributes(u16);

/// The flag for bold text.
pub const BOLD: u16 = 0x001;

/// The flag for faint text.
pub const FAINT: u16 = 0x002;

/// The flag for italic text.
pub const ITALIC: u16 = 0x004;

/// The flag for underline text.
pub const UNDERLINE: u16 = 0x008;

/// The flag for blink text.
pub const BLINK: u16 = 0x010;

/// The flag for reverse text.
pub const REVERSE: u16 = 0x040;

/// The flag for strikeout text.
pub const STRIKEOUT: u16 = 0x100;

/// The flags that a stored number carries: none for the reset request.
pub open spec fn flags_of(raw: u16) -> u16 {
    if raw == u16::MAX {
        0
    } else {
        raw
    }
}

/// The positions of the set bits among the lowest `n` of `bits`, each counted
/// from one, in increasing order.
pub open spec fn indexed_bytes(bits: u16, n: nat) -> Seq<u8>
    decreases n,
{
    if n == 0 {
        Seq::empty()
    } else {
        let rest = indexed_bytes(bits, (n - 1) as nat);
        if bits & (1u16 << ((n - 1) as u16)) != 0 {
            rest.push(n as u8)
        } else {
            rest
        }
    }
}

impl Attributes {
    #[verifier::type_invariant]
    spec fn nonzero(self) -> bool {
        self.0 != 0
    }

    /// The number that is stored.
    pub closed spec fn raw(self) -> u16 {
        self.0
    }

    /// The flags that are set; none for the reset request.
    pub open spec fn bits(self) -> u16 {
        flags_of(self.raw())
    }

    /// A value is its stored number and nothing else: two values are equal
    /// exactly if they store the same number.
    pub proof fn lemma_raw_decides(self, other: Self)
        ensures
            self == other <==> self.raw() == other.raw(),
    {
    }

    /// The value that stores `raw`, or `None` for zero.
    pub fn new(raw: u16) -> (r: Option<Self>)
        ensures
            r is Some <==> raw != 0,
            r is Some ==> r.unwrap().raw() == raw,
    {
        if raw == 0 {
            None
        } else {
            Some(Self(raw))
        }
    }

    /// The number that is stored: never zero.
    pub fn get(&self) -> (r: u16)
        ensures
            r == self.raw(),
            r != 0,
    {
        proof {
            use_type_invariant(self);
        }
        self.0
    }

    /// The request to reset every attribute.
    pub fn reset() -> (r: Self)
        ensures
            r.raw() == u16::MAX,
    {
        Self(u16::MAX)
    }

    pub fn bold() -> (r: Self)
        ensures
            r.raw() == BOLD,
    {
        Self(BOLD)
    }

    pub fn faint() -> (r: Self)
        ensures
            r.raw() == FAINT,
    {
        Self(FAINT)
    }

    pub fn italic() -> (r: Self)
        ensures
            r.raw() == ITALIC,
    {
        Self(ITALIC)
    }

    pub fn underline() -> (r: Self)
        ensures
            r.raw() == UNDERLINE,
    {
        Self(UNDERLINE)
    }

    pub fn blink() -> (r: Self)
        ensures
            r.raw() == BLINK,
    {
        Self(BLINK)
    }

    pub fn reverse() -> (r: Self)
        ensures
            r.raw() == REVERSE,
    {
        Self(REVERSE)
    }

    pub fn strikeout() -> (r: Self)
        ensures
            r.raw() == STRIKEOUT,
    {
        Self(STRIKEOUT)
    }

    /// Whether this is the reset request.
    pub fn is_reset(&self) -> (r: bool)
        ensures
            r == (self.bits() == 0),
            r == (self.raw() == u16::MAX),
    {
        proof {
            use_type_invariant(self);
        }
        self.translate() == 0
    }

    pub fn is_bold(&self) -> (r: bool)
        ensures
            r == (self.bits() & BOLD != 0),
    {
        self.translate() & BOLD != 0
    }

    pub fn is_faint(&self) -> (r: bool)
        ensures
            r == (self.bits() & FAINT != 0),
    {
        self.translate() & FAINT != 0
    }

    pub fn is_italic(&self) -> (r: bool)
        ensures
            r == (self.bits() & ITALIC != 0),
    {
        self.translate() & ITALIC != 0
    }

    pub fn is_underline(&self) -> (r: bool)
        ensures
            r == (self.bits() & UNDERLINE != 0),
    {
        self.translate() & UNDERLINE != 0
    }

    pub fn is_blink(&self) -> (r: bool)
        ensures
            r == (self.bits() & BLINK != 0),
    {
        self.translate() & BLINK != 0
    }

    pub fn is_reverse(&self) -> (r: bool)
        ensures
            r == (self.bits() & REVERSE != 0),
    {
        self.translate() & REVERSE != 0
    }

    pub fn is_strikeout(&self) -> (r: bool)
        ensures
            r == (self.bits() & STRIKEOUT != 0),
    {
        self.translate() & STRIKEOUT != 0
    }

    /// The numbers that select the set attributes on a terminal, in
    /// increasing order: one more than the position of each set flag. The
    /// reset request gives none.
    pub fn as_indexed_bytes(&self) -> (r: Vec<u8>)
        ensures
            r@ == indexed_bytes(self.bits(), 16),
    {
        let data: u16 = self.translate();
        let mut out: Vec<u8> = Vec::new();
        let mut pos: u16 = 0;
        while pos < 16
            invariant
                pos <= 16,
                data == self.bits(),
                out@ == indexed_bytes(data, pos as nat),
            decreases 16 - pos,
        {
            let set: bool = (data & (1u16 << pos)) != 0;
            pos += 1;
            if set {
                out.push(pos as u8);
            }
        }
        out
    }

    fn translate(&self) -> (r: u16)
        ensures
            r == self.bits(),
    {
        let d: u16 = self.0;
        if d == u16::MAX {
            0
        } else {
            d
        }
    }
}

impl Default for Attributes {
    fn default() -> (r: Self)
        ensures
            r.raw() == u16::MAX,
    {
        Self::reset()
    }
}

impl BitAnd for Attributes {
    type Output = Self;

    /// The flags that both sets have. Two sets without a common flag have no
    /// intersection that could be stored.
    fn bitand(self, rhs: Self) -> (r: Self)
        ensures
            r.raw() == self.bits() & rhs.bits(),
    {
        let a: u16 = self.translate();
        let b: u16 = rhs.translate();
        Self(a & b)
    }
}

impl BitAndSpecImpl for Attributes {
    open spec fn obeys_bitand_spec() -> bool {
        true
    }

    open spec fn bitand_req(self, rhs: Self) -> bool {
        self.bits() & rhs.bits() != 0
    }

    closed spec fn bitand_spec(self, rhs: Self) -> Self {
        Attributes(self.bits() & rhs.bits())
    }
}

/// The stored number of the union of two values: the reset request absorbs
/// whatever it is combined with.
pub open spec fn union_raw(a: u16, b: u16) -> u16 {
    if a == u16::MAX || b == u16::MAX {
        u16::MAX
    } else {
        a | b
    }
}

impl BitOr for Attributes {
    type Output = Self;

    /// The flags of either set. The reset request absorbs whatever it is
    /// combined with.
    fn bitor(self, rhs: Self) -> (r: Self)
        ensures
            r.raw() == union_raw(self.raw(), rhs.raw()),
    {
        proof {
            use_type_invariant(self);
        }
        let a: u16 = self.0;
        let b: u16 = rhs.0;
        if a == u16::MAX || b == u16::MAX {
            Self(u16::MAX)
        } else {
            let bits: u16 = a | b;
            assert(bits != 0) by (bit_vector)
                requires
                    bits == a | b,
                    a != 0,
            ;
            Self(bits)
        }
    }
}

impl BitOrSpecImpl for Attributes {
    open spec fn obeys_bitor_spec() -> bool {
        true
    }

    open spec fn bitor_req(self, rhs: Self) -> bool {
        true
    }

    closed spec fn bitor_spec(self, rhs: Self) -> Self {
        Attributes(union_raw(self.0, rhs.0))
    }
}

/// Combining attributes does not depend on the order or the grouping, a
/// set combined with itself is itself, and the reset request absorbs
/// whatever it is combined with.
pub proof fn lemma_union(a: u16, b: u16, c: u16)
    ensures
        union_raw(a, b) == union_raw(b, a),
        union_raw(union_raw(a, b), c) == union_raw(a, union_raw(b, c)),
        union_raw(a, a) == a,
        union_raw(u16::MAX, a) == u16::MAX,
        union_raw(a, u16::MAX) == u16::MAX,
        a != 0 ==> union_raw(a, b) != 0,
{
    assert(a | b == b | a) by (bit_vector);
    assert((a | b) | c == a | (b | c)) by (bit_vector);
    assert(a | a == a) by (bit_vector);
    assert(a != 0 ==> a | b != 0) by (bit_vector);
    if a != u16::MAX && b != u16::MAX && c != u16::MAX {
        if a | b == u16::MAX {
            assert((a | b) | c == 0xffffu16) by (bit_vector)
                requires
                    a | b == 0xffffu16,
            ;
        }
        if b | c == u16::MAX {
            assert(a | (b | c) == 0xffffu16) by (bit_vector)
                requires
                    b | c == 0xffffu16,
            ;
        }
    }
}

/// The stored number of the complement of a value: the reset request stays
/// what it is.
pub open spec fn complement_raw(a: u16) -> u16 {
    if a == u16::MAX {
        u16::MAX
    } else {
        !a
    }
}

impl Not for Attributes {
    type Output = Self;

    /// The flags that the set does not have; the reset request stays what it
    /// is.
    fn not(self) -> (r: Self)
        ensures
            r.raw() == complement_raw(self.raw()),
    {
        proof {
            use_type_invariant(self);
        }
        let a: u16 = self.0;
        if a == u16::MAX {
            Self(u16::MAX)
        } else {
            let bits: u16 = !a;
            assert(bits != 0) by (bit_vector)
                requires
                    bits == !a,
                    a != 0xffffu16,
            ;
            Self(bits)
        }
    }
}

impl NotSpecImpl for Attributes {
    open spec fn obeys_not_spec() -> bool {
        true
    }

    open spec fn not_req(self) -> bool {
        true
    }

    closed spec fn not_spec(self) -> Self {
        Attributes(complement_raw(self.0))
    }
}

} // verus!
