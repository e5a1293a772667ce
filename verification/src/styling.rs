//! The style of a run of cells.

use vstd::prelude::*;

use crate::attributes::Attributes;
use crate::color::Color;
use crate::renderer::BlendMode;

verus! {

/// Colours, attributes and the way of blending for cells that are drawn
/// together.
#[derive(Copy, Clone, Debug, PartialEq, Eq, Structural)]
pub struct Style {
    pub foreground: Color,
    pub background: Color,
    pub attributes: Option<Attributes>,
    pub blend: BlendMode,
}

impl Default for Style {
    fn default() -> (r: Self)
        ensures
            r == Style::spec_empty(),
    {
        Self::empty()
    }
}

impl Style {
    /// The style that leaves the colours to the defaults, sets no attribute
    /// and replaces what it is drawn over.
    pub open spec fn spec_empty() -> Style {
        Style {
            foreground: Color::Default,
            background: Color::Default,
            attributes: None,
            blend: BlendMode::Replace,
        }
    }

    #[must_use]
    pub fn empty() -> (r: Self)
        ensures
            r == Self::spec_empty(),
    {
        Self {
            foreground: Color::Default,
            background: Color::Default,
            attributes: None,
            blend: BlendMode::Replace,
        }
    }

    #[must_use]
    pub fn foreground(self, foreground: Color) -> (r: Self)
        ensures
            r == (Style { foreground, ..self }),
    {
        let mut this = self;
        this.foreground = foreground;
        this
    }

    #[must_use]
    pub fn background(self, background: Color) -> (r: Self)
        ensures
            r == (Style { background, ..self }),
    {
        let mut this = self;
        this.background = background;
        this
    }

    #[must_use]
    pub fn attributes(self, attributes: Option<Attributes>) -> (r: Self)
        ensures
            r == (Style { attributes, ..self }),
    {
        let mut this = self;
        this.attributes = attributes;
        this
    }

    #[must_use]
    pub fn blend(self, blend: BlendMode) -> (r: Self)
        ensures
            r == (Style { blend, ..self }),
    {
        let mut this = self;
        this.blend = blend;
        this
    }
}

} // verus!
