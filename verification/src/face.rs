//! What a font engine reports about a face it has opened, as plain data.

use crate::encoding::spec_decode_utf16_be;
use crate::geometry::{RectI, Vector2I};
use crate::metrics::Metrics;
use crate::outline::PathSegment;
use crate::properties::{
    spec_stretch_of_width_class, Properties, Stretch, Style, Weight, WEIGHT_NORMAL,
};
use std::sync::Arc;
use vstd::prelude::*;

verus! {

/// The key of the full name in the dictionary of a Type 1 font.
pub const PS_DICT_FULL_NAME: u32 = 38;

/// The ID of the full name in the `name` table of an SFNT font.
pub const TT_NAME_ID_FULL_NAME: u16 = 4;

/// The platform ID of the names that are held in big-endian UTF-16.
pub const TT_PLATFORM_APPLE_UNICODE: u16 = 0;

/// The bit of `fs_selection` in the OS/2 table that marks an oblique font.
pub const OS2_FS_SELECTION_OBLIQUE: u16 = 0x0200;

/// The format of a font.
#[derive(Clone, Copy, Debug, PartialEq, Eq, Structural)]
pub enum FontFormat {
    /// Outlines made of quadratic curves, in an SFNT container.
    TrueType,
    /// Outlines in the Compact Font Format, in an SFNT container.
    OpenType,
    /// PostScript Type 1.
    Type1,
    /// Glyph Bitmap Distribution Format.
    Bdf,
    /// Portable Compiled Format.
    Pcf,
}

/// An entry of the dictionary of a Type 1 font.
#[derive(Debug)]
pub struct Type1Entry {
    pub key: u32,
    pub value: String,
}

/// A record of the `name` table of an SFNT font. The string is in the
/// encoding that the platform and encoding IDs call for.
#[derive(Debug)]
pub struct SfntName {
    pub platform_id: u16,
    pub encoding_id: u16,
    pub language_id: u16,
    pub name_id: u16,
    pub string: Vec<u8>,
}

/// The fields of the OS/2 table of an SFNT font that the queries read.
#[derive(Clone, Copy, Debug, PartialEq, Eq, Structural)]
pub struct Os2Table {
    pub weight_class: u16,
    pub width_class: u16,
    pub fs_selection: u16,
    pub x_height: i16,
    pub cap_height: i16,
}

/// The value of a property of a BDF or PCF font.
#[derive(Debug)]
pub enum BdfValue {
    /// The property has no value.
    Empty,
    /// A string.
    Atom(String),
    /// A signed number.
    Integer(i32),
    /// An unsigned number.
    Cardinal(u32),
}

/// A property of a BDF or PCF font.
#[derive(Debug)]
pub struct BdfProperty {
    pub name: String,
    pub value: BdfValue,
}

/// An entry of the character map: the glyph that stands for a character.
#[derive(Clone, Copy, Debug)]
pub struct CharMapping {
    pub character: char,
    pub glyph_id: u32,
}

/// A glyph, measured in font design units.
#[derive(Debug)]
pub struct Glyph {
    /// The name of the glyph; empty where it has none.
    pub name: String,
    /// The distance from the origin of this glyph to that of the next.
    pub advance: Vector2I,
    /// The smallest rectangle around the outline.
    pub bounds: RectI,
    /// The path around the glyph. Empty for a glyph without an outline.
    pub outline: Vec<PathSegment>,
}

/// A table of an SFNT font, with its four-byte tag as a number.
#[derive(Debug)]
pub struct FontTable {
    pub tag: u32,
    pub data: Vec<u8>,
}

/// What a font engine reports about a face it has opened. Glyph IDs are
/// indices into `glyphs`.
#[derive(Debug)]
pub struct Face {
    pub format: FontFormat,
    pub postscript_name: Option<String>,
    pub family_name: Option<String>,
    pub is_fixed_width: bool,
    pub is_italic: bool,
    pub units_per_em: u16,
    pub ascender: i16,
    pub descender: i16,
    pub height: i16,
    pub underline_position: i16,
    pub underline_thickness: i16,
    pub type_1_values: Vec<Type1Entry>,
    pub sfnt_names: Vec<SfntName>,
    pub os2: Option<Os2Table>,
    pub bdf_properties: Vec<BdfProperty>,
    pub charmap: Vec<CharMapping>,
    pub glyphs: Vec<Glyph>,
    pub tables: Vec<FontTable>,
}

/// The handle by which a face is shared: cloning it counts one more
/// reference and copies nothing.
pub type NativeFont = Arc<Face>;

/// The value of the first entry at or after `start` whose key is `key`.
pub open spec fn type_1_value_from(entries: Seq<Type1Entry>, key: u32, start: int) -> Option<
    Seq<char>,
>
    decreases entries.len() - start,
{
    if start < 0 || start >= entries.len() {
        None
    } else if entries[start].key == key {
        Some(entries[start].value@)
    } else {
        type_1_value_from(entries, key, start + 1)
    }
}

/// Whether a name record carries the name with the given ID as big-endian
/// UTF-16 text.
pub open spec fn name_record_matches(record: SfntName, sfnt_id: u16) -> bool {
    record.name_id == sfnt_id && record.platform_id == TT_PLATFORM_APPLE_UNICODE
}

/// The texts of the records at or after `start` that carry the name with the
/// given ID, in the order of the records; `None` for a record whose string
/// cannot be decoded.
pub open spec fn sfnt_name_texts_from(names: Seq<SfntName>, sfnt_id: u16, start: int) -> Seq<
    Option<Seq<char>>,
>
    decreases names.len() - start,
{
    if start < 0 || start >= names.len() {
        Seq::<Option<Seq<char>>>::empty()
    } else if name_record_matches(names[start], sfnt_id) {
        seq![spec_decode_utf16_be(names[start].string@)] + sfnt_name_texts_from(
            names,
            sfnt_id,
            start + 1,
        )
    } else {
        sfnt_name_texts_from(names, sfnt_id, start + 1)
    }
}

/// The first text at or after `start` that is there.
pub open spec fn first_text_from(texts: Seq<Option<Seq<char>>>, start: int) -> Option<Seq<char>>
    decreases texts.len() - start,
{
    if start < 0 || start >= texts.len() {
        None
    } else if texts[start] is Some {
        texts[start]
    } else {
        first_text_from(texts, start + 1)
    }
}

/// The name that a value of the Type 1 dictionary and the texts of the name
/// records give: the value where there is one, else the first text that
/// could be decoded.
pub open spec fn spec_choose_name(
    type_1_value: Option<Seq<char>>,
    sfnt_texts: Seq<Option<Seq<char>>>,
) -> Option<Seq<char>> {
    match type_1_value {
        Some(value) => Some(value),
        None => first_text_from(sfnt_texts, 0),
    }
}

/// The index of the first property at or after `start` whose name is `name`.
pub open spec fn bdf_property_from(properties: Seq<BdfProperty>, name: Seq<char>, start: int) -> Option<
    int,
>
    decreases properties.len() - start,
{
    if start < 0 || start >= properties.len() {
        None
    } else if properties[start].name@ == name {
        Some(start)
    } else {
        bdf_property_from(properties, name, start + 1)
    }
}

/// The glyph of the first entry at or after `start` that maps `character`.
pub open spec fn mapped_glyph_from(charmap: Seq<CharMapping>, character: char, start: int) -> Option<
    u32,
>
    decreases charmap.len() - start,
{
    if start < 0 || start >= charmap.len() {
        None
    } else if charmap[start].character == character {
        Some(charmap[start].glyph_id)
    } else {
        mapped_glyph_from(charmap, character, start + 1)
    }
}

/// The index of the first glyph at or after `start` whose name is `name`.
pub open spec fn named_glyph_from(glyphs: Seq<Glyph>, name: Seq<char>, start: int) -> Option<int>
    decreases glyphs.len() - start,
{
    if start < 0 || start >= glyphs.len() {
        None
    } else if glyphs[start].name@ == name {
        Some(start)
    } else {
        named_glyph_from(glyphs, name, start + 1)
    }
}

/// The data of the first table at or after `start` whose tag is `tag`.
pub open spec fn table_from(tables: Seq<FontTable>, tag: u32, start: int) -> Option<Seq<u8>>
    decreases tables.len() - start,
{
    if start < 0 || start >= tables.len() {
        None
    } else if tables[start].tag == tag {
        Some(tables[start].data@)
    } else {
        table_from(tables, tag, start + 1)
    }
}

/// The PostScript name that a property value of the form `PS=name` gives:
/// what follows the prefix, where that is not empty.
pub open spec fn spec_device_font_name(value: Seq<char>) -> Option<Seq<char>> {
    if value.len() > 3 && value[0] == 'P' && value[1] == 'S' && value[2] == '=' {
        Some(value.subrange(3, value.len() as int))
    } else {
        None
    }
}

impl Face {
    /// Whether the face is one that a font can be made of: its glyph IDs fit
    /// in 32 bits.
    pub open spec fn wf(&self) -> bool {
        self.glyphs@.len() <= u32::MAX
    }

    /// Whether the face is one that a font can be made of.
    pub fn is_valid(&self) -> (valid: bool)
        ensures
            valid == self.wf(),
    {
        self.glyphs.len() <= 0xffff_ffff
    }

    /// The name with the given ID: from the Type 1 dictionary where it has an
    /// entry under `type_1_id`, else from the first SFNT name record with
    /// `sfnt_id` whose text can be decoded.
    pub open spec fn spec_type_1_or_sfnt_name(&self, type_1_id: u32, sfnt_id: u16) -> Option<
        Seq<char>,
    > {
        spec_choose_name(
            type_1_value_from(self.type_1_values@, type_1_id, 0),
            sfnt_name_texts_from(self.sfnt_names@, sfnt_id, 0),
        )
    }

    /// The PostScript name that the properties of a BDF or PCF font give:
    /// the property `_DEC_DEVICE_FONTNAMES`, where it is a string of the form
    /// `PS=name`.
    pub open spec fn spec_device_postscript_name(&self) -> Option<Seq<char>> {
        match bdf_property_from(self.bdf_properties@, "_DEC_DEVICE_FONTNAMES"@, 0) {
            Some(i) => match self.bdf_properties@[i].value {
                BdfValue::Atom(value) => spec_device_font_name(value@),
                _ => None,
            },
            None => None,
        }
    }

    /// The PostScript name of the face: the one the engine reports, where
    /// that is not empty; for a BDF or PCF font without one, the name that
    /// its properties give.
    pub open spec fn spec_postscript_name(&self) -> Option<Seq<char>> {
        if self.postscript_name is Some && self.postscript_name->0@.len() > 0 {
            Some(self.postscript_name->0@)
        } else if self.format == FontFormat::Bdf || self.format == FontFormat::Pcf {
            self.spec_device_postscript_name()
        } else {
            None
        }
    }

    /// The family name of the face; empty where the engine reports none.
    pub open spec fn spec_family_name(&self) -> Seq<char> {
        match self.family_name {
            Some(name) => name@,
            None => Seq::<char>::empty(),
        }
    }

    /// The full name of the face; the family name where it has none.
    pub open spec fn spec_full_name(&self) -> Seq<char> {
        match self.spec_type_1_or_sfnt_name(PS_DICT_FULL_NAME, TT_NAME_ID_FULL_NAME) {
            Some(name) => name,
            None => self.spec_family_name(),
        }
    }

    /// The style of the face: oblique where the OS/2 table says so, else
    /// italic where the engine says so, else normal.
    pub open spec fn spec_style(&self) -> Style {
        if self.os2 is Some && self.os2->0.fs_selection & OS2_FS_SELECTION_OBLIQUE != 0 {
            Style::Oblique
        } else if self.is_italic {
            Style::Italic
        } else {
            Style::Normal
        }
    }

    /// The properties of the face: the weight class and the stretch of the
    /// width class of the OS/2 table, or normal ones without that table.
    pub open spec fn spec_properties(&self) -> Properties {
        Properties {
            style: self.spec_style(),
            weight: match self.os2 {
                Some(os2) => Weight(os2.weight_class),
                None => Weight(WEIGHT_NORMAL),
            },
            stretch: match self.os2 {
                Some(os2) => Stretch(spec_stretch_of_width_class(os2.width_class)),
                None => Stretch(spec_stretch_of_width_class(0)),
            },
        }
    }

    /// The metrics of the face. The line gap is what the line height leaves
    /// beyond ascent and descent; the underline position is that of the
    /// middle of the underline; cap height and x-height come from the OS/2
    /// table and are zero without it.
    pub open spec fn spec_metrics(&self) -> Metrics {
        Metrics {
            units_per_em: self.units_per_em as u32,
            ascent: self.ascender as i32,
            descent: self.descender as i32,
            line_gap: (self.height + self.descender - self.ascender) as i32,
            underline_position: (self.underline_position + if self.underline_thickness >= 0 {
                self.underline_thickness / 2
            } else {
                -((-self.underline_thickness) / 2)
            }) as i32,
            underline_thickness: self.underline_thickness as i32,
            cap_height: match self.os2 {
                Some(os2) => os2.cap_height as i32,
                None => 0,
            },
            x_height: match self.os2 {
                Some(os2) => os2.x_height as i32,
                None => 0,
            },
        }
    }

    /// The glyph that stands for a character: that of the first entry of the
    /// character map for it, unless that is glyph 0, which stands for a
    /// missing glyph, or no glyph of the face.
    pub open spec fn spec_glyph_for_char(&self, character: char) -> Option<u32> {
        match mapped_glyph_from(self.charmap@, character, 0) {
            Some(glyph_id) => if 0 < glyph_id < self.glyphs@.len() {
                Some(glyph_id)
            } else {
                None
            },
            None => None,
        }
    }

    /// The first glyph with the given name, unless that is glyph 0, which
    /// stands for a missing glyph. An empty name is the name of no glyph.
    pub open spec fn spec_glyph_by_name(&self, name: Seq<char>) -> Option<u32> {
        if name.len() == 0 {
            None
        } else {
            match named_glyph_from(self.glyphs@, name, 0) {
                Some(i) => if 0 < i <= u32::MAX {
                    Some(i as u32)
                } else {
                    None
                },
                None => None,
            }
        }
    }

    /// The data of the first table with the given tag.
    pub open spec fn spec_table(&self, tag: u32) -> Option<Seq<u8>> {
        table_from(self.tables@, tag, 0)
    }
}

} // verus!
