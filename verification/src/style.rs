//! How a sentence looks: values that the engine carries through to the host
//! and never interprets.

use vstd::prelude::*;

verus! {

/// The font size of a sentence that was given none: 32 units.
pub const DEFAULT_FONT_SIZE: u32 = 32_000;

/// Names a font of the host. The engine never resolves it.
#[derive(Clone, Copy, Debug, PartialEq, Eq, Structural, Hash)]
pub struct FontId(pub u64);

/// A color as red, green, blue and opacity, each from 0 to 255.
#[derive(Clone, Copy, Debug, PartialEq, Eq, Structural, Hash)]
pub struct Color {
    pub red: u8,
    pub green: u8,
    pub blue: u8,
    pub alpha: u8,
}

/// Font, size and color of a run of text. The size is in thousandths of a unit.
#[derive(Clone, Copy, Debug, PartialEq, Eq, Structural, Hash)]
pub struct TextStyle {
    pub font: FontId,
    pub font_size: u32,
    pub color: Color,
}

/// A run of text with its style, ready for the host to draw.
#[derive(Debug, PartialEq, Eq)]
pub struct TextSection {
    pub value: String,
    pub style: TextStyle,
}

/// What a [`TextSection`] is, as mathematical values.
pub ghost struct TextSectionView {
    pub value: Seq<char>,
    pub style: TextStyle,
}

impl View for TextSection {
    type V = TextSectionView;

    open spec fn view(&self) -> TextSectionView {
        TextSectionView { value: self.value@, style: self.style }
    }
}

impl Color {
    /// An opaque gray, halfway between black and white.
    pub open spec fn spec_gray() -> Color {
        Color { red: 128, green: 128, blue: 128, alpha: 255 }
    }

    /// An opaque gray, halfway between black and white.
    #[verifier::when_used_as_spec(spec_gray)]
    pub fn gray() -> (color: Color)
        ensures
            color == Self::spec_gray(),
    {
        Color { red: 128, green: 128, blue: 128, alpha: 255 }
    }
}

impl TextStyle {
    /// The style of a sentence that was given none: the host's first font,
    /// 32 units high, in gray.
    pub open spec fn spec_plain() -> TextStyle {
        TextStyle { font: FontId(0), font_size: DEFAULT_FONT_SIZE, color: Color::spec_gray() }
    }
}

impl Default for TextStyle {
    /// The plain style: the host's first font, 32 units high, in gray.
    fn default() -> (style: Self)
        ensures
            style == TextStyle::spec_plain(),
    {
        TextStyle { font: FontId(0), font_size: DEFAULT_FONT_SIZE, color: Color::gray() }
    }
}

} // verus!
