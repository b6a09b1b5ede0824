//! Style, weight and stretch of a font, on the scales that CSS uses.

use vstd::prelude::*;

verus! {

/// The weight of a regular font.
pub const WEIGHT_NORMAL: u16 = 400;

/// The weight of a bold font.
pub const WEIGHT_BOLD: u16 = 700;

/// The stretch of a font of normal width, in thousandths.
pub const STRETCH_NORMAL: u16 = 1000;

/// Whether the glyphs are upright, italic or slanted.
#[derive(Clone, Copy, Debug, PartialEq, Eq, Structural)]
pub enum Style {
    /// Upright glyphs.
    Normal,
    /// Glyphs drawn in an italic form of their own.
    Italic,
    /// Upright glyphs, slanted.
    Oblique,
}

/// How thick the strokes are, from 100 (thin) to 900 (black).
#[derive(Clone, Copy, Debug, PartialEq, Eq, Structural)]
pub struct Weight(pub u16);

/// How wide the glyphs are, in thousandths of the normal width: from 500
/// (ultra-condensed) to 2000 (ultra-expanded).
#[derive(Clone, Copy, Debug, PartialEq, Eq, Structural)]
pub struct Stretch(pub u16);

/// The properties by which a font is chosen within its family.
#[derive(Clone, Copy, Debug, PartialEq, Eq, Structural)]
pub struct Properties {
    pub style: Style,
    pub weight: Weight,
    pub stretch: Stretch,
}

/// The stretch, in thousandths, that stands for each of the nine width
/// classes of a font's OS/2 table; normal for any other number.
pub open spec fn spec_stretch_of_width_class(width_class: u16) -> u16 {
    if width_class == 1 {
        500
    } else if width_class == 2 {
        625
    } else if width_class == 3 {
        750
    } else if width_class == 4 {
        875
    } else if width_class == 5 {
        1000
    } else if width_class == 6 {
        1125
    } else if width_class == 7 {
        1250
    } else if width_class == 8 {
        1500
    } else if width_class == 9 {
        2000
    } else {
        STRETCH_NORMAL
    }
}

/// The stretch, in thousandths, that stands for a width class.
#[verifier::when_used_as_spec(spec_stretch_of_width_class)]
pub fn stretch_of_width_class(width_class: u16) -> (stretch: u16)
    ensures
        stretch == spec_stretch_of_width_class(width_class),
        500 <= stretch <= 2000,
{
    match width_class {
        1 => 500,
        2 => 625,
        3 => 750,
        4 => 875,
        5 => 1000,
        6 => 1125,
        7 => 1250,
        8 => 1500,
        9 => 2000,
        _ => STRETCH_NORMAL,
    }
}

impl Properties {
    /// The properties of a regular font: upright, of normal weight and width.
    pub open spec fn spec_new() -> Properties {
        Properties {
            style: Style::Normal,
            weight: Weight(WEIGHT_NORMAL),
            stretch: Stretch(STRETCH_NORMAL),
        }
    }

    /// The properties of a regular font.
    #[verifier::when_used_as_spec(spec_new)]
    pub fn new() -> (properties: Properties)
        ensures
            properties == Properties::spec_new(),
    {
        Properties {
            style: Style::Normal,
            weight: Weight(WEIGHT_NORMAL),
            stretch: Stretch(STRETCH_NORMAL),
        }
    }
}

impl Default for Properties {
    fn default() -> (properties: Properties)
        ensures
            properties == Properties::spec_new(),
    {
        Properties::new()
    }
}

} // verus!
