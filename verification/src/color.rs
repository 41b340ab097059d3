//! Colors, and the fixed palette of the game.

use vstd::prelude::*;

verus! {

/// An RGBA color, one byte per channel.
#[derive(Debug, Clone, Copy, PartialEq, Eq, Hash, Structural)]
pub struct Color {
    pub r: u8,
    pub g: u8,
    pub b: u8,
    pub a: u8,
}

impl Color {
    pub open spec fn spec_rgba(r: u8, g: u8, b: u8, a: u8) -> Color {
        Color { r, g, b, a }
    }

    #[verifier::when_used_as_spec(spec_rgba)]
    pub fn rgba(r: u8, g: u8, b: u8, a: u8) -> (c: Color)
        ensures
            c == Color::spec_rgba(r, g, b, a),
    {
        Color { r, g, b, a }
    }

    pub open spec fn spec_rgb(r: u8, g: u8, b: u8) -> Color {
        Color { r, g, b, a: 255 }
    }

    /// An opaque color.
    #[verifier::when_used_as_spec(spec_rgb)]
    pub fn rgb(r: u8, g: u8, b: u8) -> (c: Color)
        ensures
            c == Color::spec_rgb(r, g, b),
    {
        Color { r, g, b, a: 255 }
    }
}

/// Window background.
pub fn base() -> (c: Color)
    ensures
        c == Color::rgba(43, 49, 55, 255),
{
    Color::rgba(43, 49, 55, 255)
}

/// Background of the stat rows.
pub fn alt_base() -> (c: Color)
    ensures
        c == Color::rgba(36, 41, 46, 255),
{
    Color::rgba(36, 41, 46, 255)
}

/// Raised surfaces.
pub fn lighter() -> (c: Color)
    ensures
        c == Color::rgba(43, 49, 55, 255),
{
    Color::rgba(43, 49, 55, 255)
}

/// Background of the framed regions.
pub fn encapsulation_regions() -> (c: Color)
    ensures
        c == Color::rgba(29, 33, 37, 255),
{
    Color::rgba(29, 33, 37, 255)
}

/// Primary button, at rest.
pub fn button() -> (c: Color)
    ensures
        c == Color::rgba(4, 66, 137, 255),
{
    Color::rgba(4, 66, 137, 255)
}

/// Primary button, pressed.
pub fn button_pressed() -> (c: Color)
    ensures
        c == Color::rgba(127, 184, 251, 255),
{
    Color::rgba(127, 184, 251, 255)
}

/// Primary button, hovered.
pub fn button_hovered() -> (c: Color)
    ensures
        c == Color::rgba(0, 92, 197, 255),
{
    Color::rgba(0, 92, 197, 255)
}

/// Secondary button, at rest.
pub fn alt_button() -> (c: Color)
    ensures
        c == Color::rgba(243, 88, 2, 255),
{
    Color::rgba(243, 88, 2, 255)
}

/// Secondary button, hovered.
pub fn alt_button_hovered() -> (c: Color)
    ensures
        c == Color::rgba(243, 103, 25, 255),
{
    Color::rgba(243, 103, 25, 255)
}

/// Secondary button, pressed.
pub fn alt_button_pressed() -> (c: Color)
    ensures
        c == Color::rgba(239, 157, 112, 255),
{
    Color::rgba(239, 157, 112, 255)
}

/// Outline of most widgets.
pub fn main_outline_clr() -> (c: Color)
    ensures
        c == Color::rgba(24, 26, 28, 255),
{
    Color::rgba(24, 26, 28, 255)
}

/// Muted outline.
pub fn off_outline_clr() -> (c: Color)
    ensures
        c == Color::rgba(107, 117, 127, 255),
{
    Color::rgba(107, 117, 127, 255)
}

/// Legendary rarity.
pub fn legendary() -> (c: Color)
    ensures
        c == Color::rgba(250, 214, 104, 255),
{
    Color::rgba(250, 214, 104, 255)
}

/// Epic rarity.
pub fn epic() -> (c: Color)
    ensures
        c == Color::rgba(112, 36, 163, 255),
{
    Color::rgba(112, 36, 163, 255)
}

/// Body text.
pub fn main_text_clr() -> (c: Color)
    ensures
        c == Color::rgba(246, 248, 250, 255),
{
    Color::rgba(246, 248, 250, 255)
}

/// Muted text.
pub fn off_text_clr() -> (c: Color)
    ensures
        c == Color::rgba(101, 126, 150, 255),
{
    Color::rgba(101, 126, 150, 255)
}

/// Cast bar fill of Miasma.
pub fn miasma_color() -> (c: Color)
    ensures
        c == Color::rgba(125, 185, 112, 255),
{
    Color::rgba(125, 185, 112, 255)
}

/// Cast bar fill of Infernum.
pub fn infernum_color() -> (c: Color)
    ensures
        c == Color::rgba(233, 103, 6, 255),
{
    Color::rgba(233, 103, 6, 255)
}

/// Experience bar.
pub fn xp_color() -> (c: Color)
    ensures
        c == Color::rgba(98, 67, 211, 255),
{
    Color::rgba(98, 67, 211, 255)
}

/// Plain white.
pub fn white() -> (c: Color)
    ensures
        c == Color::rgba(255, 255, 255, 255),
{
    Color::rgba(255, 255, 255, 255)
}

/// Plain black.
pub fn black() -> (c: Color)
    ensures
        c == Color::rgba(0, 0, 0, 255),
{
    Color::rgba(0, 0, 0, 255)
}

} // verus!
