//! Components of the presentation entities: what is drawn, and where.

use crate::color::Color;
use vstd::prelude::*;

verus! {

/// The kinds of component that a presentation entity can carry.
#[derive(Debug, Clone, Copy, PartialEq, Eq, Structural)]
pub enum PropertiesEnum {
    Rect,
    Text,
    Healthbar,
    Castbar,
    State,
    TooltipData,
    Clickable,
}

/// Identity of a presentation entity. Every entity has exactly one.
#[derive(Debug, Clone, PartialEq, Eq, Hash)]
pub struct PId {
    pub id: u32,
    /// Given by the caller, or `entity_<id>` where none was given.
    pub tag: String,
}

/// A fill color and an optional outline color, as RGB triples.
#[derive(Debug, Clone, Copy, PartialEq, Eq, Hash)]
pub struct ColorPair {
    pub fill: (u8, u8, u8),
    pub outline: Option<(u8, u8, u8)>,
}

impl ColorPair {
    pub open spec fn spec_from_colors(fill: Color, outline: Option<Color>) -> ColorPair {
        ColorPair {
            fill: (fill.r, fill.g, fill.b),
            outline: match outline {
                Some(o) => Some((o.r, o.g, o.b)),
                None => None,
            },
        }
    }

    /// Drops the alpha channel of both colors.
    #[verifier::when_used_as_spec(spec_from_colors)]
    pub fn from_colors(fill: Color, outline: Option<Color>) -> (pair: ColorPair)
        ensures
            pair == ColorPair::spec_from_colors(fill, outline),
    {
        match outline {
            Some(o) => ColorPair { fill: (fill.r, fill.g, fill.b), outline: Some((o.r, o.g, o.b)) },
            None => ColorPair { fill: (fill.r, fill.g, fill.b), outline: None },
        }
    }
}

/// A rectangle. An entity may carry several.
#[derive(Debug, Clone, Copy, PartialEq, Eq, Hash)]
pub struct PRect {
    pub id: u32,
    pub x: u32,
    pub y: u32,
    pub width: u32,
    pub height: u32,
    pub colors: ColorPair,
    pub pressed_color: Option<ColorPair>,
    pub hovered_color: Option<ColorPair>,
    pub pressed: Option<bool>,
    pub hovered: Option<bool>,
    pub draw: bool,
    pub strata: u8,
}

/// A line of text. An entity may carry several.
#[derive(Debug, Clone, PartialEq, Eq, Hash)]
pub struct PText {
    pub id: u32,
    pub text: String,
    pub scale: u32,
    pub x: u32,
    pub y: u32,
    pub colors: ColorPair,
    pub draw: bool,
    pub strata: u8,
    /// Time left on screen in milliseconds, for text that fades.
    pub lifetime_ms: Option<u32>,
}

/// A health bar, optionally bound to the game entity whose health it shows.
#[derive(Debug, Clone, Copy, PartialEq, Eq, Hash)]
pub struct PHealthbar {
    pub id: u32,
    pub x: u32,
    pub y: u32,
    pub width: u32,
    pub height: u32,
    pub base_colors: ColorPair,
    pub inner_colors: ColorPair,
    pub draw: bool,
    pub strata: u8,
    pub gem_entity_id: Option<u32>,
}

/// A cast bar.
#[derive(Debug, Clone, PartialEq, Eq, Hash)]
pub struct PCastbar {
    pub id: u32,
    pub x: u32,
    pub y: u32,
    pub width: u32,
    pub height: u32,
    /// Progress of the cast in thousandths: 0 is empty, 1000 is full.
    pub cast_progress: u32,
    pub base_colors: ColorPair,
    pub inner_colors: ColorPair,
    pub icon_name: String,
    pub draw: bool,
    pub strata: u8,
}

/// A scratch buffer owned by one entity.
#[derive(Debug, Clone, PartialEq, Eq, Hash)]
pub struct PState {
    pub id: u32,
    pub state_vec: Vec<u32>,
}

/// The tooltip shown while the pointer is inside the given area.
#[derive(Debug, Clone, PartialEq, Eq, Hash)]
pub struct PTooltipData {
    pub id: u32,
    pub header: String,
    pub body: String,
    pub x: u32,
    pub y: u32,
    pub width: u32,
    pub height: u32,
    pub icon: Option<String>,
}

/// Makes an entity clickable through one of its rectangles.
#[derive(Debug, Clone, Copy, PartialEq, Eq, Hash)]
pub struct PClickable {
    pub id: u32,
    pub clickable: bool,
    pub rect_reference_id: Option<u32>,
    pub action: ClickAction,
}

/// What a click on a button asks for.
#[derive(Debug, Clone, Copy, PartialEq, Eq, Hash, Structural)]
pub enum ClickAction {
    RunButton,
    OtherButton,
    A,
    B,
    C,
    D,
    E,
    F,
    G,
    H,
}

} // verus!
