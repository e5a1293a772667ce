//! Colours: RGBA values, entries of the terminal palette, and the colour of a
//! cell, which may also be left to a default or to what lies beneath.

use std::ops::{Add, BitXor, Div, Mul, Sub};
use vstd::prelude::*;
use vstd::std_specs::convert::FromSpecImpl;
use vstd::std_specs::ops::{AddSpecImpl, BitXorSpecImpl, DivSpecImpl, MulSpecImpl, SubSpecImpl};

pub mod color_helpers;
pub mod hex;

use hex::{parse_hex, HexError};

verus! {

/// A colour with red, green, blue and alpha channels, in that order.
#[derive(Copy, Clone, Debug, PartialEq, Eq, Structural)]
pub struct Rgba(pub u8, pub u8, pub u8, pub u8);

/// The `k`-th hexadecimal digit of `color`, counted from the least
/// significant one.
pub open spec fn nibble(color: u32, k: nat) -> int {
    if k == 0 {
        (color % 16) as int
    } else if k == 1 {
        (color / 0x10 % 16) as int
    } else if k == 2 {
        (color / 0x100 % 16) as int
    } else {
        (color / 0x1000 % 16) as int
    }
}

/// One channel of an alpha blend: `alpha` parts of `src` and the rest of
/// `dst`, out of 255.
pub open spec fn blend_channel(alpha: u8, src: u8, dst: u8) -> int {
    (alpha * src + (255 - alpha) * dst) / 255
}

/// The larger of two channel values.
pub open spec fn max_u8(a: u8, b: u8) -> u8 {
    if a >= b {
        a
    } else {
        b
    }
}

impl Rgba {
    pub fn new(r: u8, g: u8, b: u8, a: u8) -> (out: Self)
        ensures
            out == Rgba(r, g, b, a),
    {
        Self(r, g, b, a)
    }

    pub fn red(&self) -> (out: u8)
        ensures
            out == self.0,
    {
        self.0
    }

    pub fn green(&self) -> (out: u8)
        ensures
            out == self.1,
    {
        self.1
    }

    pub fn blue(&self) -> (out: u8)
        ensures
            out == self.2,
    {
        self.2
    }

    pub fn alpha(&self) -> (out: u8)
        ensures
            out == self.3,
    {
        self.3
    }

    /// The colour that a short hexadecimal number stands for.
    ///
    /// Where the fourth digit from the right is zero the number is read as
    /// `0xRGB` and the colour is opaque; otherwise it is read as `0xRGBA`.
    /// Each digit `d` gives the channel value `0xdd`.
    pub open spec fn spec_from_u32(color: u32) -> Rgba {
        if nibble(color, 3) == 0 {
            Rgba(
                (17 * nibble(color, 2)) as u8,
                (17 * nibble(color, 1)) as u8,
                (17 * nibble(color, 0)) as u8,
                0xFF,
            )
        } else {
            Rgba(
                (17 * nibble(color, 3)) as u8,
                (17 * nibble(color, 2)) as u8,
                (17 * nibble(color, 1)) as u8,
                (17 * nibble(color, 0)) as u8,
            )
        }
    }

    /// The colour that a short hexadecimal number stands for: `0xRGB` or
    /// `0xRGBA`.
    pub fn from_u32(color: u32) -> (out: Self)
        ensures
            out == Self::spec_from_u32(color),
    {
        let n3: u8 = ((color >> 12) & 0xF) as u8;
        let n2: u8 = ((color >> 8) & 0xF) as u8;
        let n1: u8 = ((color >> 4) & 0xF) as u8;
        let n0: u8 = (color & 0xF) as u8;
        assert(n3 == color / 0x1000 % 16 && n2 == color / 0x100 % 16 && n1 == color / 0x10 % 16
            && n0 == color % 16) by (bit_vector)
            requires
                n3 == ((color >> 12) & 0xF) as u8,
                n2 == ((color >> 8) & 0xF) as u8,
                n1 == ((color >> 4) & 0xF) as u8,
                n0 == (color & 0xF) as u8,
        ;
        if n3 == 0 {
            Self(double_digit(n2), double_digit(n1), double_digit(n0), 0xFF)
        } else {
            Self(double_digit(n3), double_digit(n2), double_digit(n1), double_digit(n0))
        }
    }

    /// The colour written as `#RGB`, `#RGBA`, `#RRGGBB` or `#RRGGBBAA`, with
    /// any white space around it. Any other text is no colour: see
    /// [`Rgba::try_hex`] for text that is not known to be well formed.
    pub fn hex(color: &str) -> (out: Self)
        requires
            parse_hex(color@) is Ok,
        ensures
            parse_hex(color@) == Ok::<Rgba, HexError>(out),
    {
        match hex::scan(color) {
            Ok(c) => c,
            Err(_) => unreached(),
        }
    }

    /// The colour written as `#RGB`, `#RGBA`, `#RRGGBB` or `#RRGGBBAA`, with
    /// any white space around it, or the reason why the text is none.
    pub fn try_hex(color: &str) -> (out: Result<Self, HexError>)
        ensures
            out == parse_hex(color@),
    {
        hex::scan(color)
    }

    /// The colour as text: `#` and the two hexadecimal digits of each
    /// channel, in upper case.
    pub open spec fn spec_upper_hex(self) -> Seq<char> {
        seq!['#'] + crate::text::ascii(
            crate::text::hex_pair(self.0) + crate::text::hex_pair(self.1) + crate::text::hex_pair(
                self.2,
            ) + crate::text::hex_pair(self.3),
        )
    }

    /// The colour as text: `#` and the two hexadecimal digits of each
    /// channel, in lower case.
    pub open spec fn spec_lower_hex(self) -> Seq<char> {
        seq!['#'] + crate::text::ascii(
            crate::text::lower_hex_pair(self.0) + crate::text::lower_hex_pair(self.1)
                + crate::text::lower_hex_pair(self.2) + crate::text::lower_hex_pair(self.3),
        )
    }

    /// The colour as eight hexadecimal digits after a `#`, in upper case.
    pub fn upper_hex(&self) -> (out: String)
        ensures
            out@ == self.spec_upper_hex(),
    {
        let mut digits: Vec<u8> = Vec::new();
        crate::text::push_hex_pair(&mut digits, self.0);
        crate::text::push_hex_pair(&mut digits, self.1);
        crate::text::push_hex_pair(&mut digits, self.2);
        crate::text::push_hex_pair(&mut digits, self.3);
        let mut chars: Vec<char> = Vec::new();
        chars.push('#');
        crate::text::push_ascii(&mut chars, &digits);
        assert(digits@ =~= crate::text::hex_pair(self.0) + crate::text::hex_pair(self.1)
            + crate::text::hex_pair(self.2) + crate::text::hex_pair(self.3));
        assert(chars@ =~= self.spec_upper_hex());
        crate::text::chars_to_string(&chars)
    }

    /// The colour as eight hexadecimal digits after a `#`, in lower case.
    pub fn lower_hex(&self) -> (out: String)
        ensures
            out@ == self.spec_lower_hex(),
    {
        let mut digits: Vec<u8> = Vec::new();
        crate::text::push_lower_hex_pair(&mut digits, self.0);
        crate::text::push_lower_hex_pair(&mut digits, self.1);
        crate::text::push_lower_hex_pair(&mut digits, self.2);
        crate::text::push_lower_hex_pair(&mut digits, self.3);
        let mut chars: Vec<char> = Vec::new();
        chars.push('#');
        crate::text::push_ascii(&mut chars, &digits);
        assert(digits@ =~= crate::text::lower_hex_pair(self.0) + crate::text::lower_hex_pair(self.1)
            + crate::text::lower_hex_pair(self.2) + crate::text::lower_hex_pair(self.3));
        assert(chars@ =~= self.spec_lower_hex());
        crate::text::chars_to_string(&chars)
    }

    /// `self` laid over `other` with the opacity that `self`'s alpha gives.
    ///
    /// A fully transparent `self` leaves `other` as it is and a fully opaque
    /// one hides it. In between each colour channel is mixed and the result
    /// has `self`'s alpha.
    pub open spec fn spec_blend_alpha(self, other: Rgba) -> Rgba {
        if self.3 == 0 {
            other
        } else if self.3 == 255 {
            self
        } else {
            Rgba(
                blend_channel(self.3, self.0, other.0) as u8,
                blend_channel(self.3, self.1, other.1) as u8,
                blend_channel(self.3, self.2, other.2) as u8,
                self.3,
            )
        }
    }

    /// `self` laid over `other` with the opacity that `self`'s alpha gives.
    pub fn blend_alpha(self, other: Self) -> (out: Self)
        ensures
            out == self.spec_blend_alpha(other),
            self.3 == 0 ==> out == other,
            self.3 == 255 ==> out == self,
    {
        let Self(r0, g0, b0, a0) = self;
        let Self(r1, g1, b1, _) = other;
        if a0 == 0 {
            return other;
        }
        if a0 == 255 {
            return self;
        }
        Self(blend_one(a0, r0, r1), blend_one(a0, g0, g1), blend_one(a0, b0, b1), a0)
    }
}

/// The channel value `0xdd` for a hexadecimal digit `d`.
fn double_digit(d: u8) -> (out: u8)
    requires
        d < 16,
    ensures
        out == 17 * d,
{
    let out: u8 = (d << 4) | d;
    assert(out == 17 * d) by (bit_vector)
        requires
            out == (d << 4) | d,
            d < 16,
    ;
    out
}

/// One channel of an alpha blend.
fn blend_one(a: u8, src: u8, dst: u8) -> (out: u8)
    ensures
        out == blend_channel(a, src, dst),
{
    let a: i32 = a as i32;
    let src: i32 = src as i32;
    let dst: i32 = dst as i32;
    assert(0 <= a * src <= 255 * a && 0 <= (255 - a) * dst <= 255 * (255 - a))
        by (nonlinear_arith)
        requires
            0 <= a <= 255,
            0 <= src <= 255,
            0 <= dst <= 255,
    ;
    let total: i32 = a * src + (255 - a) * dst;
    (total / 255) as u8
}

impl Add for Rgba {
    type Output = Self;

    /// Adds the colour channels, stopping at full strength; the alpha is the
    /// larger of the two.
    fn add(self, rhs: Self) -> (out: Self) {
        let Rgba(r0, g0, b0, a0) = self;
        let Rgba(r1, g1, b1, a1) = rhs;
        Rgba(
            r0.saturating_add(r1),
            g0.saturating_add(g1),
            b0.saturating_add(b1),
            larger(a0, a1),
        )
    }
}

impl AddSpecImpl for Rgba {
    open spec fn obeys_add_spec() -> bool {
        true
    }

    open spec fn add_req(self, rhs: Self) -> bool {
        true
    }

    open spec fn add_spec(self, rhs: Self) -> Self {
        Rgba(
            (if self.0 + rhs.0 > 255 { 255 } else { self.0 + rhs.0 }) as u8,
            (if self.1 + rhs.1 > 255 { 255 } else { self.1 + rhs.1 }) as u8,
            (if self.2 + rhs.2 > 255 { 255 } else { self.2 + rhs.2 }) as u8,
            max_u8(self.3, rhs.3),
        )
    }
}

impl Sub for Rgba {
    type Output = Self;

    /// Subtracts the colour channels, stopping at zero; the alpha is the
    /// larger of the two.
    fn sub(self, rhs: Self) -> (out: Self) {
        let Rgba(r0, g0, b0, a0) = self;
        let Rgba(r1, g1, b1, a1) = rhs;
        Rgba(
            r0.saturating_sub(r1),
            g0.saturating_sub(g1),
            b0.saturating_sub(b1),
            larger(a0, a1),
        )
    }
}

impl SubSpecImpl for Rgba {
    open spec fn obeys_sub_spec() -> bool {
        true
    }

    open spec fn sub_req(self, rhs: Self) -> bool {
        true
    }

    open spec fn sub_spec(self, rhs: Self) -> Self {
        Rgba(
            (if self.0 - rhs.0 < 0 { 0 } else { self.0 - rhs.0 }) as u8,
            (if self.1 - rhs.1 < 0 { 0 } else { self.1 - rhs.1 }) as u8,
            (if self.2 - rhs.2 < 0 { 0 } else { self.2 - rhs.2 }) as u8,
            max_u8(self.3, rhs.3),
        )
    }
}

impl Mul for Rgba {
    type Output = Self;

    /// Multiplies the colour channels as fractions of full strength; the
    /// alpha is the larger of the two.
    fn mul(self, rhs: Self) -> (out: Self) {
        let Rgba(r0, g0, b0, a0) = self;
        let Rgba(r1, g1, b1, a1) = rhs;
        Rgba(multiply(r0, r1), multiply(g0, g1), multiply(b0, b1), larger(a0, a1))
    }
}

impl MulSpecImpl for Rgba {
    open spec fn obeys_mul_spec() -> bool {
        true
    }

    open spec fn mul_req(self, rhs: Self) -> bool {
        true
    }

    open spec fn mul_spec(self, rhs: Self) -> Self {
        Rgba(
            (self.0 * rhs.0 / 255) as u8,
            (self.1 * rhs.1 / 255) as u8,
            (self.2 * rhs.2 / 255) as u8,
            max_u8(self.3, rhs.3),
        )
    }
}

impl Div for Rgba {
    type Output = Self;

    /// Screens the colour channels: the inverse of the product of the
    /// inverses; the alpha is the larger of the two.
    fn div(self, rhs: Self) -> (out: Self) {
        let Rgba(r0, g0, b0, a0) = self;
        let Rgba(r1, g1, b1, a1) = rhs;
        Rgba(
            255 - multiply(255 - r0, 255 - r1),
            255 - multiply(255 - g0, 255 - g1),
            255 - multiply(255 - b0, 255 - b1),
            larger(a0, a1),
        )
    }
}

impl DivSpecImpl for Rgba {
    open spec fn obeys_div_spec() -> bool {
        true
    }

    open spec fn div_req(self, rhs: Self) -> bool {
        true
    }

    open spec fn div_spec(self, rhs: Self) -> Self {
        Rgba(
            (255 - (255 - self.0) * (255 - rhs.0) / 255) as u8,
            (255 - (255 - self.1) * (255 - rhs.1) / 255) as u8,
            (255 - (255 - self.2) * (255 - rhs.2) / 255) as u8,
            max_u8(self.3, rhs.3),
        )
    }
}

impl BitXor for Rgba {
    type Output = Self;

    /// The colour channels combined bit by bit with exclusive or; the alpha
    /// is the larger of the two.
    fn bitxor(self, rhs: Self) -> (out: Self) {
        let Rgba(r0, g0, b0, a0) = self;
        let Rgba(r1, g1, b1, a1) = rhs;
        Rgba(r0 ^ r1, g0 ^ g1, b0 ^ b1, larger(a0, a1))
    }
}

impl BitXorSpecImpl for Rgba {
    open spec fn obeys_bitxor_spec() -> bool {
        true
    }

    open spec fn bitxor_req(self, rhs: Self) -> bool {
        true
    }

    open spec fn bitxor_spec(self, rhs: Self) -> Self {
        Rgba(self.0 ^ rhs.0, self.1 ^ rhs.1, self.2 ^ rhs.2, max_u8(self.3, rhs.3))
    }
}

fn larger(a: u8, b: u8) -> (out: u8)
    ensures
        out == max_u8(a, b),
{
    if a >= b {
        a
    } else {
        b
    }
}

/// The product of two channels read as fractions of full strength.
fn multiply(a: u8, b: u8) -> (out: u8)
    ensures
        out == a * b / 255,
{
    assert(0 <= a * b <= 255 * 255) by (nonlinear_arith)
        requires
            0 <= a <= 255,
            0 <= b <= 255,
    ;
    let product: u16 = (a as u16) * (b as u16);
    (product / 255) as u8
}

/// The colour of one channel of a cell.
#[derive(Copy, Clone, Debug, PartialEq, Eq, Structural)]
pub enum Color {
    /// An entry of the terminal's palette.
    Named(IndexedColor),
    /// An explicit colour.
    Rgba(Rgba),
    /// Whatever the terminal, or the compositor, has as its default.
    Default,
    /// Whatever lies beneath when the cell is merged over another.
    Transparent,
}

impl Color {
    /// `self` where it names a colour, `fallback` where it leaves the choice
    /// open.
    pub open spec fn spec_get_or_default(self, fallback: Color) -> Color {
        match self {
            Color::Default | Color::Transparent => fallback,
            _ => self,
        }
    }

    /// `self` where it names a colour, `other` where it leaves the choice
    /// open.
    pub fn get_or_default(self, other: Color) -> (out: Color)
        ensures
            out == self.spec_get_or_default(other),
    {
        match self {
            Self::Default | Self::Transparent => other,
            _ => self,
        }
    }

    /// Two explicit colours blended by the alpha of `self`; in every other
    /// case `self`.
    pub open spec fn spec_blend(self, other: Color) -> Color {
        match (self, other) {
            (Color::Rgba(left), Color::Rgba(right)) => Color::Rgba(left.spec_blend_alpha(right)),
            _ => self,
        }
    }

    /// `self` blended over `other` where both are explicit colours, else
    /// `self`.
    pub fn blend(self, other: Self) -> (out: Self)
        ensures
            out == self.spec_blend(other),
    {
        match (self, other) {
            (Self::Rgba(left), Self::Rgba(right)) => Self::Rgba(left.blend_alpha(right)),
            _ => self,
        }
    }
}

impl Default for Color {
    fn default() -> (out: Self)
        ensures
            out == Color::Default,
    {
        Self::Default
    }
}

impl From<IndexedColor> for Color {
    fn from(value: IndexedColor) -> (out: Self) {
        Self::Named(value)
    }
}

impl FromSpecImpl<IndexedColor> for Color {
    open spec fn obeys_from_spec() -> bool {
        true
    }

    open spec fn from_spec(value: IndexedColor) -> Self {
        Color::Named(value)
    }
}

impl From<Rgba> for Color {
    fn from(value: Rgba) -> (out: Self) {
        Self::Rgba(value)
    }
}

impl FromSpecImpl<Rgba> for Color {
    open spec fn obeys_from_spec() -> bool {
        true
    }

    open spec fn from_spec(value: Rgba) -> Self {
        Color::Rgba(value)
    }
}

impl From<Option<Rgba>> for Color {
    fn from(value: Option<Rgba>) -> (out: Self) {
        match value {
            Some(s) => Self::Rgba(s),
            None => Self::Default,
        }
    }
}

impl FromSpecImpl<Option<Rgba>> for Color {
    open spec fn obeys_from_spec() -> bool {
        true
    }

    open spec fn from_spec(value: Option<Rgba>) -> Self {
        match value {
            Some(s) => Color::Rgba(s),
            None => Color::Default,
        }
    }
}

impl From<Option<IndexedColor>> for Color {
    fn from(value: Option<IndexedColor>) -> (out: Self) {
        match value {
            Some(s) => Self::Named(s),
            None => Self::Default,
        }
    }
}

impl FromSpecImpl<Option<IndexedColor>> for Color {
    open spec fn obeys_from_spec() -> bool {
        true
    }

    open spec fn from_spec(value: Option<IndexedColor>) -> Self {
        match value {
            Some(s) => Color::Named(s),
            None => Color::Default,
        }
    }
}

/// An entry of the terminal's 256-colour palette.
#[derive(Copy, Clone, Debug, PartialEq, Eq, Structural)]
pub struct IndexedColor(pub u8);

impl IndexedColor {
    pub fn new(color: u8) -> (out: Self)
        ensures
            out == IndexedColor(color),
    {
        Self(color)
    }

    /// The palette entry that stands for an RGB colour.
    pub fn approximate_rgb(r: u8, g: u8, b: u8) -> (out: Self)
        ensures
            out.0 == color_helpers::spec_rgb_to_ansi(r, g, b),
    {
        Self(color_helpers::rgb_to_ansi(r, g, b))
    }

    pub fn black() -> (out: Self)
        ensures
            out == IndexedColor(0),
    {
        Self(0)
    }

    pub fn white() -> (out: Self)
        ensures
            out == IndexedColor(15),
    {
        Self(15)
    }

    pub fn grey() -> (out: Self)
        ensures
            out == IndexedColor(8),
    {
        Self(8)
    }

    pub fn light_grey() -> (out: Self)
        ensures
            out == IndexedColor(7),
    {
        Self(7)
    }

    pub fn red() -> (out: Self)
        ensures
            out == IndexedColor(1),
    {
        Self(1)
    }

    pub fn light_red() -> (out: Self)
        ensures
            out == IndexedColor(9),
    {
        Self(9)
    }

    pub fn green() -> (out: Self)
        ensures
            out == IndexedColor(2),
    {
        Self(2)
    }

    pub fn light_green() -> (out: Self)
        ensures
            out == IndexedColor(10),
    {
        Self(10)
    }

    pub fn yellow() -> (out: Self)
        ensures
            out == IndexedColor(3),
    {
        Self(3)
    }

    pub fn light_yellow() -> (out: Self)
        ensures
            out == IndexedColor(11),
    {
        Self(11)
    }

    pub fn blue() -> (out: Self)
        ensures
            out == IndexedColor(4),
    {
        Self(4)
    }

    pub fn light_blue() -> (out: Self)
        ensures
            out == IndexedColor(12),
    {
        Self(12)
    }

    pub fn magenta() -> (out: Self)
        ensures
            out == IndexedColor(5),
    {
        Self(5)
    }

    pub fn light_magenta() -> (out: Self)
        ensures
            out == IndexedColor(13),
    {
        Self(13)
    }

    pub fn cyan() -> (out: Self)
        ensures
            out == IndexedColor(6),
    {
        Self(6)
    }

    pub fn light_cyan() -> (out: Self)
        ensures
            out == IndexedColor(14),
    {
        Self(14)
    }

    /// The entry of the 8-colour palette: the 16-colour one without
    /// brightness.
    pub fn to_3bit(self) -> (out: u8)
        ensures
            out == color_helpers::spec_ansi_to_4bit(self.0) % 8,
    {
        self.to_4bit() % 8
    }

    /// The entry of the 16-colour palette.
    pub fn to_4bit(self) -> (out: u8)
        ensures
            out == color_helpers::spec_ansi_to_4bit(self.0),
            out < 16,
    {
        color_helpers::ansi_to_4bit(self.0)
    }

    /// The entry's number in the 256-colour palette.
    pub fn to_8bit(self) -> (out: u8)
        ensures
            out == self.0,
    {
        self.0
    }

    /// The palette entry's colour, fully opaque.
    pub open spec fn spec_to_rgb(self) -> Rgba {
        let (r, g, b) = color_helpers::spec_ansi_to_rgb(self.0);
        Rgba(r, g, b, 0xFF)
    }

    /// The palette entry's colour, fully opaque.
    pub fn to_rgb(self) -> (out: Rgba)
        ensures
            out == self.spec_to_rgb(),
    {
        let (r, g, b) = color_helpers::ansi_to_rgb(self.0);
        Rgba(r, g, b, 0xFF)
    }
}

} // verus!
