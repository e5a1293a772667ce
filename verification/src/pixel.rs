//! The cell: one character-sized styled unit of the grid.

use compact_str::CompactString;
use vstd::prelude::*;
use vstd::std_specs::cmp::PartialEqSpecImpl;

use crate::attributes::Attributes;
use crate::color::{Color, Rgba};
use crate::renderer::BlendMode;

verus! {

/// A short text stored compactly: a `CompactString` of the `compact_str`
/// crate. Verus sees nothing inside it; what is known of it is what the
/// functions below state over [`compact_text`].
#[verifier::external_body]
#[derive(Debug)]
pub struct ShortText {
    inner: CompactString,
}

/// The characters that a short text holds, in order.
pub uninterp spec fn compact_text(s: ShortText) -> Seq<char>;

/// `CompactString::new` on a string slice: the new text holds the characters
/// of `text`.
#[verifier::external_body]
fn compact_new(text: &str) -> (r: ShortText)
    ensures
        compact_text(r) == text@,
{
    ShortText { inner: CompactString::new(text) }
}

/// `CompactString::const_new`: the new text holds the characters of `text`.
#[verifier::external_body]
fn compact_const_new(text: &'static str) -> (r: ShortText)
    ensures
        compact_text(r) == text@,
{
    ShortText { inner: CompactString::const_new(text) }
}

/// `CompactString::as_str`: the slice shows the characters that the text
/// holds.
#[verifier::external_body]
fn compact_as_str(s: &ShortText) -> (r: &str)
    ensures
        r@ == compact_text(*s),
{
    s.inner.as_str()
}

/// `CompactString::clone`: the copy holds the same characters.
#[verifier::external_body]
fn compact_clone(s: &ShortText) -> (r: ShortText)
    ensures
        compact_text(r) == compact_text(*s),
{
    ShortText { inner: s.inner.clone() }
}

/// `==` on two `CompactString`s: it compares the characters that they hold.
#[verifier::external_body]
fn compact_eq(a: &ShortText, b: &ShortText) -> (r: bool)
    ensures
        r == (compact_text(*a) == compact_text(*b)),
{
    a.inner == b.inner
}

/// What a cell shows.
#[derive(Debug)]
pub enum PixelData {
    /// A single character.
    Char(char),
    /// A short text that is shown in one column.
    Str(ShortText),
}

/// What a cell shows, as a mathematical value.
pub enum Glyph {
    Char(char),
    Text(Seq<char>),
}

impl Glyph {
    /// The characters that are written to the terminal for this content.
    pub open spec fn text(self) -> Seq<char> {
        match self {
            Glyph::Char(c) => seq![c],
            Glyph::Text(s) => s,
        }
    }
}

impl View for PixelData {
    type V = Glyph;

    open spec fn view(&self) -> Glyph {
        match *self {
            PixelData::Char(c) => Glyph::Char(c),
            PixelData::Str(s) => Glyph::Text(compact_text(s)),
        }
    }
}

impl Clone for PixelData {
    fn clone(&self) -> (r: Self)
        ensures
            r@ == self@,
    {
        match self {
            PixelData::Char(c) => PixelData::Char(*c),
            PixelData::Str(s) => PixelData::Str(compact_clone(s)),
        }
    }
}

impl PartialEq for PixelData {
    fn eq(&self, other: &Self) -> (r: bool) {
        match (self, other) {
            (PixelData::Char(a), PixelData::Char(b)) => *a == *b,
            (PixelData::Str(a), PixelData::Str(b)) => compact_eq(a, b),
            _ => false,
        }
    }
}

impl PartialEqSpecImpl for PixelData {
    open spec fn obeys_eq_spec() -> bool {
        true
    }

    open spec fn eq_spec(&self, other: &Self) -> bool {
        self@ == other@
    }
}

impl Eq for PixelData {
}

/// What tells the mark of a cell that was never painted from every cell that
/// is built for drawing. Only [`Pixel::dirty`] makes one that is set.
#[derive(Debug, Clone, Copy)]
pub struct Mark {
    set: bool,
}

impl Mark {
    /// Whether the mark is set.
    pub closed spec fn is_set(&self) -> bool {
        self.set
    }

    /// The mark of every cell that is built for drawing: it is not set.
    pub fn unset() -> (r: Self)
        ensures
            !r.is_set(),
    {
        Mark { set: false }
    }

    /// Whether the mark is set.
    pub fn get(&self) -> (r: bool)
        ensures
            r == self.is_set(),
    {
        self.set
    }
}

/// One cell of the grid: what it shows and how it is styled.
#[derive(Debug)]
pub struct Pixel {
    pub data: PixelData,
    pub foreground: Color,
    pub background: Color,
    pub attributes: Option<Attributes>,
    /// Set in the cell that stands for "never painted", and in no cell
    /// that is built for drawing.
    pub mark: Mark,
}

/// A cell as a mathematical value.
pub struct PixelView {
    pub data: Glyph,
    pub foreground: Color,
    pub background: Color,
    pub attributes: Option<Attributes>,
    /// Whether this is the mark of a cell that was never painted. No cell
    /// that is built for drawing has it.
    pub unpainted: bool,
}

impl View for Pixel {
    type V = PixelView;

    open spec fn view(&self) -> PixelView {
        PixelView {
            data: self.data@,
            foreground: self.foreground,
            background: self.background,
            attributes: self.attributes,
            unpainted: self.mark.is_set(),
        }
    }
}

impl Clone for Pixel {
    fn clone(&self) -> (r: Self)
        ensures
            r@ == self@,
    {
        Pixel {
            data: self.data.clone(),
            foreground: self.foreground,
            background: self.background,
            attributes: self.attributes,
            mark: self.mark,
        }
    }
}

fn same_attributes(a: Option<Attributes>, b: Option<Attributes>) -> (r: bool)
    ensures
        r == (a == b),
{
    match (a, b) {
        (Some(x), Some(y)) => x == y,
        (None, None) => true,
        _ => false,
    }
}

impl PartialEq for Pixel {
    fn eq(&self, other: &Self) -> (r: bool) {
        self.data == other.data && self.foreground == other.foreground && self.background
            == other.background && same_attributes(self.attributes, other.attributes)
            && self.mark.get() == other.mark.get()
    }
}

impl PartialEqSpecImpl for Pixel {
    open spec fn obeys_eq_spec() -> bool {
        true
    }

    open spec fn eq_spec(&self, other: &Self) -> bool {
        self@ == other@
    }
}

impl Eq for Pixel {
}

/// The colour that an explicit or a palette colour resolves to; the other
/// two name none.
pub open spec fn resolved(c: Color) -> Option<Rgba> {
    match c {
        Color::Rgba(v) => Some(v),
        Color::Named(i) => Some(i.spec_to_rgb()),
        _ => None,
    }
}

/// One colour channel of a cell when `upper` is laid over `lower` with
/// blending: a transparent upper colour lets the lower one show; two colours
/// that both resolve to RGBA are blended by the upper one's alpha; in every
/// other case the upper colour replaces the lower one.
pub open spec fn blend_colors(lower: Color, upper: Color) -> Color {
    if upper == Color::Transparent {
        lower
    } else if resolved(lower) is Some && resolved(upper) is Some {
        Color::Rgba(resolved(upper).unwrap().spec_blend_alpha(resolved(lower).unwrap()))
    } else {
        upper
    }
}

/// The cell that results when `upper` is written over `lower`.
///
/// Replacing takes `upper` as it is. Blending takes content and attributes
/// from `upper` and blends each colour channel.
pub open spec fn merged(lower: PixelView, upper: PixelView, mode: BlendMode) -> PixelView {
    match mode {
        BlendMode::Replace => upper,
        BlendMode::Blend => PixelView {
            data: upper.data,
            foreground: blend_colors(lower.foreground, upper.foreground),
            background: blend_colors(lower.background, upper.background),
            attributes: upper.attributes,
            unpainted: upper.unpainted,
        },
    }
}

/// Whether `new` is what adding `attr` to the attributes `old` gives: the
/// union where both name some, else `attr`.
pub open spec fn attributes_added(
    old: Option<Attributes>,
    attr: Option<Attributes>,
    new: Option<Attributes>,
) -> bool {
    match (old, attr) {
        (Some(a), Some(b)) => new is Some && new.unwrap().raw() == crate::attributes::union_raw(
            a.raw(),
            b.raw(),
        ),
        _ => new == attr,
    }
}

/// The cell that the front grid holds between frames.
pub open spec fn empty_view() -> PixelView {
    PixelView {
        data: Glyph::Char(' '),
        foreground: Color::Default,
        background: Color::Default,
        attributes: None,
        unpainted: false,
    }
}

/// The mark of a cell that was never painted, which the back grid is seeded
/// with so that the first frame paints every cell. It shows as a blank on
/// magenta, and it equals no cell that is built for drawing: those are not
/// `unpainted`.
pub open spec fn dirty_view() -> PixelView {
    PixelView {
        data: Glyph::Char(' '),
        foreground: Color::Default,
        background: Color::Rgba(Rgba(0xFF, 0x00, 0xFF, 0xFF)),
        attributes: None,
        unpainted: true,
    }
}

fn resolve(c: Color) -> (r: Option<Rgba>)
    ensures
        r == resolved(c),
{
    match c {
        Color::Rgba(v) => Some(v),
        Color::Named(i) => Some(i.to_rgb()),
        _ => None,
    }
}

impl Pixel {
    /// A blank cell in the default colours.
    pub fn empty() -> (r: Self)
        ensures
            r@ == empty_view(),
    {
        Self {
            data: PixelData::Char(' '),
            foreground: Color::Default,
            background: Color::Default,
            attributes: None,
            mark: Mark::unset(),
        }
    }

    /// The mark of a cell that was never painted. No cell that is built by
    /// the other constructors, whatever is then set in it, equals it.
    pub fn dirty() -> (r: Self)
        ensures
            r@ == dirty_view(),
    {
        Self {
            data: PixelData::Char(' '),
            foreground: Color::Default,
            background: Color::Rgba(Rgba(0xFF, 0x00, 0xFF, 0xFF)),
            attributes: None,
            mark: Mark { set: true },
        }
    }

    /// Whether the cell is the mark of one that was never painted: true of
    /// [`Pixel::dirty`] and of its copies, whatever colours they are given.
    pub fn is_dirty(&self) -> (r: bool)
        ensures
            r == self@.unpainted,
    {
        self.mark.get()
    }

    /// A cell that shows `ch` in the default colours.
    pub fn new(ch: char) -> (r: Self)
        ensures
            r@ == (PixelView {
                data: Glyph::Char(ch),
                foreground: Color::Default,
                background: Color::Default,
                attributes: None,
                unpainted: false,
            }),
    {
        Self {
            data: PixelData::Char(ch),
            foreground: Color::Default,
            background: Color::Default,
            attributes: None,
            mark: Mark::unset(),
        }
    }

    /// A cell that shows a text known when the program is built.
    pub fn const_str(str: &'static str) -> (r: Self)
        ensures
            r@ == (PixelView {
                data: Glyph::Text(str@),
                foreground: Color::Default,
                background: Color::Default,
                attributes: None,
                unpainted: false,
            }),
    {
        Self {
            data: PixelData::Str(compact_const_new(str)),
            foreground: Color::Default,
            background: Color::Default,
            attributes: None,
            mark: Mark::unset(),
        }
    }

    /// The character of a cell that shows a single one.
    pub fn data(&self) -> (r: char)
        requires
            self@.data is Char,
        ensures
            self@.data == Glyph::Char(r),
    {
        match self.data {
            PixelData::Char(ch) => ch,
            _ => unreached(),
        }
    }

    /// A cell that shows a short text in the default colours.
    pub fn new_str(str: &str) -> (r: Self)
        ensures
            r@ == (PixelView {
                data: Glyph::Text(str@),
                foreground: Color::Default,
                background: Color::Default,
                attributes: None,
                unpainted: false,
            }),
    {
        Self {
            data: PixelData::Str(compact_new(str)),
            foreground: Color::Default,
            background: Color::Default,
            attributes: None,
            mark: Mark::unset(),
        }
    }

    /// The text that is written to the terminal for this cell.
    pub fn text(&self) -> (r: String)
        ensures
            r@ == self@.data.text(),
    {
        match &self.data {
            PixelData::Char(ch) => crate::text::char_to_string(*ch),
            PixelData::Str(s) => crate::text::str_to_string(compact_as_str(s)),
        }
    }

    pub fn fg(self, fg: Color) -> (r: Self)
        ensures
            r@ == (PixelView { foreground: fg, ..self@ }),
    {
        let mut this = self;
        this.foreground = fg;
        this
    }

    pub fn bg(self, bg: Color) -> (r: Self)
        ensures
            r@ == (PixelView { background: bg, ..self@ }),
    {
        let mut this = self;
        this.background = bg;
        this
    }

    pub fn set_fg(&mut self, fg: Color)
        ensures
            final(self)@ == (PixelView { foreground: fg, ..old(self)@ }),
    {
        self.foreground = fg;
    }

    pub fn set_bg(&mut self, bg: Color)
        ensures
            final(self)@ == (PixelView { background: bg, ..old(self)@ }),
    {
        self.background = bg;
    }

    /// Adds `attr` to the attributes of the cell: the union with those it
    /// has, where it has some and `attr` names some; else `attr` itself.
    pub fn set_attribute(&mut self, attr: Option<Attributes>)
        ensures
            final(self)@.data == old(self)@.data,
            final(self)@.foreground == old(self)@.foreground,
            final(self)@.background == old(self)@.background,
            final(self)@.unpainted == old(self)@.unpainted,
            attributes_added(old(self)@.attributes, attr, final(self)@.attributes),
    {
        match (self.attributes, attr) {
            (Some(a), Some(b)) => {
                self.attributes = Some(a | b);
            },
            _ => {
                self.attributes = attr;
            },
        }
    }

    /// Replaces the cell by `other`.
    pub fn merge_mut(&mut self, other: Self)
        ensures
            final(self)@ == other@,
    {
        *self = other;
    }

    /// `other` written over the cell: it replaces it.
    pub fn merge(self, other: Self) -> (r: Self)
        ensures
            r@ == other@,
    {
        let mut this = self;
        this.merge_mut(other);
        this
    }

    /// `upper` written over the cell in the given mode.
    pub fn merge_with(self, upper: Self, mode: BlendMode) -> (r: Self)
        ensures
            r@ == merged(self@, upper@, mode),
    {
        match mode {
            BlendMode::Replace => upper,
            BlendMode::Blend => {
                let foreground = Self::blend_color(self.foreground, upper.foreground);
                let background = Self::blend_color(self.background, upper.background);
                Pixel {
                    data: upper.data,
                    foreground,
                    background,
                    attributes: upper.attributes,
                    mark: upper.mark,
                }
            },
        }
    }

    /// One colour channel of `upper` laid over `lower` with blending.
    pub fn blend_color(lower: Color, upper: Color) -> (r: Color)
        ensures
            r == blend_colors(lower, upper),
    {
        if let Color::Transparent = upper {
            return lower;
        }
        match (resolve(lower), resolve(upper)) {
            (Some(below), Some(above)) => Color::Rgba(above.blend_alpha(below)),
            _ => upper,
        }
    }
}

impl Default for Pixel {
    fn default() -> (r: Self)
        ensures
            r@ == empty_view(),
    {
        Self::empty()
    }
}

} // verus!
