//! A font: a face that a font engine has opened, together with the bytes it
//! was opened from, and the queries that a text pipeline makes of it.

use crate::canvas::{
    byte_sum, law_coverage_shows_in_the_bytes, Canvas, Format, GlyphBitmap, RasterizationOptions,
};
use crate::encoding::decode_utf16_be;
use crate::error::{FontLoadingError, GlyphLoadingError};
use crate::face::{
    bdf_property_from, first_text_from, mapped_glyph_from, named_glyph_from, sfnt_name_texts_from,
    spec_choose_name, spec_device_font_name, table_from, type_1_value_from, BdfValue, Face,
    FontFormat, NativeFont, Os2Table, SfntName, OS2_FS_SELECTION_OBLIQUE, PS_DICT_FULL_NAME,
    TT_NAME_ID_FULL_NAME, TT_PLATFORM_APPLE_UNICODE,
};
use crate::file_type::{
    analyze, format_agrees, spec_analyze, spec_format_agrees, spec_recognized, FileType,
};
use crate::geometry::{RectI, Vector2I};
use crate::handle::{Handle, HandleView};
use crate::hinting::HintingOptions;
use crate::metrics::Metrics;
use crate::outline::{send_segments, OutlineSink, PathSegment};
use crate::properties::{stretch_of_width_class, Properties, Stretch, Style, Weight, WEIGHT_NORMAL};
use crate::shared::share;
use std::sync::Arc;
use vstd::prelude::*;
use vstd::string::{StrSliceExecFns, StringExecFns};

verus! {

/// Tells the engine not to hint the glyph it loads.
pub const FT_LOAD_NO_HINTING: i32 = 0x2;

/// Asks the engine for a glyph in black and white.
pub const FT_LOAD_MONOCHROME: i32 = 0x1000;

/// Asks the engine for its usual hinting.
pub const FT_LOAD_TARGET_NORMAL: i32 = 0x0;

/// Asks the engine for light hinting, along the vertical axis only.
pub const FT_LOAD_TARGET_LIGHT: i32 = 0x10000;

/// Asks the engine for hinting for black and white.
pub const FT_LOAD_TARGET_MONO: i32 = 0x20000;

/// Asks the engine for hinting for subpixel rendering.
pub const FT_LOAD_TARGET_LCD: i32 = 0x30000;

/// A font that is open: one face of a font file.
///
/// The face is shared by reference count with every clone of the font and
/// with every handle that `native_font` gave out, and is released when the
/// last of them goes. The same holds of the bytes of the file, where the font
/// was opened from bytes. Neither is ever changed, so a font can be used from
/// several threads at once.
#[derive(Debug)]
pub struct Font {
    face: NativeFont,
    font_data: Option<Arc<Vec<u8>>>,
    font_index: u32,
}

/// The fonts to fall back on for a text, and how much of the text the font
/// that was asked can show itself.
#[derive(Debug)]
pub struct FallbackResult {
    /// The fonts to fall back on, the most suitable first.
    pub fonts: Vec<Font>,
    /// The length in bytes of the part of the text, from its start, that
    /// needs no other font.
    pub valid_len: usize,
}

/// The text that an optional string holds.
pub open spec fn text_view(text: Option<String>) -> Option<Seq<char>> {
    match text {
        Some(t) => Some(t@),
        None => None,
    }
}

/// The texts that optional strings hold, one for one.
pub open spec fn texts_view(texts: Seq<Option<String>>) -> Seq<Option<Seq<char>>> {
    texts.map_values(|text: Option<String>| text_view(text))
}

/// The bytes that an optional buffer holds.
pub open spec fn bytes_view(bytes: Option<Vec<u8>>) -> Option<Seq<u8>> {
    match bytes {
        Some(b) => Some(b@),
        None => None,
    }
}

/// The bytes that an optional shared buffer holds.
pub open spec fn bytes_shared_view(bytes: Option<Arc<Vec<u8>>>) -> Option<Seq<u8>> {
    match bytes {
        Some(b) => Some(b@),
        None => None,
    }
}

/// Why the face `native`, which the engine read at `font_index` from
/// `font_data`, cannot be made a font; `None` where it can.
///
/// The data must begin like a supported format, and the index must be below
/// the number of fonts in the file. The engine must have read a face, of the
/// format that the data begins like, whose glyph IDs fit in 32 bits: else the
/// data does not parse.
pub open spec fn spec_loading_error(
    font_data: Seq<u8>,
    font_index: u32,
    native: Option<NativeFont>,
) -> Option<FontLoadingError> {
    match spec_analyze(font_data) {
        Err(error) => Some(error),
        Ok(file_type) => if font_index >= file_type.spec_face_count() {
            Some(FontLoadingError::NoSuchFontInCollection)
        } else {
            match native {
                Some(face) => if face.wf() && spec_format_agrees(font_data, face.format) {
                    None
                } else {
                    Some(FontLoadingError::Parse)
                },
                None => Some(FontLoadingError::Parse),
            }
        },
    }
}

/// The hinting target that a request for a glyph names: for subpixel
/// rendering wherever hinting or rendering is for subpixels; else none
/// without hinting, that for black and white with it, and, in shades of
/// grey, the light one for vertical hinting and the usual one for full
/// hinting.
pub open spec fn spec_load_target(hinting: HintingOptions, rasterization: RasterizationOptions) -> i32 {
    if hinting is VerticalSubpixel || rasterization == RasterizationOptions::SubpixelAa {
        FT_LOAD_TARGET_LCD
    } else if hinting is Unhinted {
        (FT_LOAD_TARGET_NORMAL + FT_LOAD_NO_HINTING) as i32
    } else if rasterization == RasterizationOptions::Bilevel {
        FT_LOAD_TARGET_MONO
    } else if hinting is Vertical {
        FT_LOAD_TARGET_LIGHT
    } else {
        FT_LOAD_TARGET_NORMAL
    }
}

/// The flags of the request that asks the engine for a glyph hinted and
/// rendered as wished: the hinting target, and the flag for black and white
/// where that is wished.
pub open spec fn spec_load_flags(hinting: HintingOptions, rasterization: RasterizationOptions) -> i32 {
    if rasterization == RasterizationOptions::Bilevel {
        (spec_load_target(hinting, rasterization) + FT_LOAD_MONOCHROME) as i32
    } else {
        spec_load_target(hinting, rasterization)
    }
}

/// The name that a value of the Type 1 dictionary and the texts of the name
/// records give: the value where there is one, else the first text that
/// could be decoded.
pub fn choose_name(type_1_value: Option<String>, sfnt_texts: &Vec<Option<String>>) -> (name: Option<
    String,
>)
    ensures
        text_view(name) == spec_choose_name(text_view(type_1_value), texts_view(sfnt_texts@)),
{
    match type_1_value {
        Some(value) => {
            return Some(value);
        },
        None => {},
    }
    let ghost texts = texts_view(sfnt_texts@);
    let mut i: usize = 0;
    while i < sfnt_texts.len()
        invariant
            i <= sfnt_texts@.len(),
            type_1_value is None,
            texts == texts_view(sfnt_texts@),
            first_text_from(texts, 0) == first_text_from(texts, i as int),
        decreases sfnt_texts@.len() - i,
    {
        assert(texts[i as int] == text_view(sfnt_texts@[i as int]));
        match &sfnt_texts[i] {
            Some(text) => {
                return Some(text.clone());
            },
            None => {},
        }
        i += 1;
    }
    None
}

/// The PostScript name that a property value of the form `PS=name` gives.
pub fn device_font_name(value: &str) -> (name: Option<String>)
    ensures
        text_view(name) == spec_device_font_name(value@),
{
    let length: usize = value.unicode_len();
    if length > 3 && value.get_char(0) == 'P' && value.get_char(1) == 'S' && value.get_char(2)
        == '=' {
        Some(value.substring_char(3, length).to_owned())
    } else {
        None
    }
}

impl Font {
    #[verifier::type_invariant]
    spec fn type_invariant(&self) -> bool {
        self.wf()
    }

    /// What holds of every font: its face has glyph IDs that fit in 32 bits,
    /// and the bytes it keeps are those of a font file in which its index
    /// selects a font, of the format of its face.
    pub closed spec fn wf(&self) -> bool {
        &&& self.face.wf()
        &&& match self.font_data {
            Some(font_data) => {
                &&& spec_format_agrees(font_data@, self.face.format)
                &&& match spec_analyze(font_data@) {
                    Ok(file_type) => self.font_index < file_type.spec_face_count(),
                    Err(_) => false,
                }
            },
            None => true,
        }
    }

    /// The face of the font, as the engine reported it.
    pub closed spec fn native(&self) -> Face {
        *self.face
    }

    /// The handle by which the font holds its face.
    pub closed spec fn native_handle(&self) -> NativeFont {
        self.face
    }

    /// The bytes of the file that the font was opened from, where it keeps
    /// them.
    pub closed spec fn data(&self) -> Option<Seq<u8>> {
        match self.font_data {
            Some(font_data) => Some(font_data@),
            None => None,
        }
    }

    /// The index of the font within its file.
    pub closed spec fn index(&self) -> u32 {
        self.font_index
    }

    /// What `from_bytes` returns: the font of the given face, bytes and
    /// index, or the error that `spec_loading_error` gives.
    pub open spec fn spec_opened(
        font_data: Seq<u8>,
        font_index: u32,
        native: Option<NativeFont>,
        result: Result<Font, FontLoadingError>,
    ) -> bool {
        match result {
            Ok(font) => {
                &&& spec_loading_error(font_data, font_index, native) is None
                &&& font.wf()
                &&& font.native_handle() == native->0
                &&& font.native() == *native->0
                &&& font.data() == Some(font_data)
                &&& font.index() == font_index
            },
            Err(error) => spec_loading_error(font_data, font_index, native) == Some(error),
        }
    }

    /// What `from_handle` returns: for a handle to bytes, what `from_bytes`
    /// returns on them; for a handle to a file, what `from_bytes` returns on
    /// the contents of the file, or `Io` where the file could not be read.
    pub open spec fn spec_opened_handle(
        handle: &Handle,
        contents: Option<Seq<u8>>,
        native: Option<NativeFont>,
        result: Result<Font, FontLoadingError>,
    ) -> bool {
        match *handle {
            Handle::Memory { bytes, font_index } => Font::spec_opened(
                bytes@,
                font_index,
                native,
                result,
            ),
            Handle::Path { font_index, .. } => match contents {
                Some(data) => Font::spec_opened(data, font_index, native, result),
                None => result matches Err(FontLoadingError::Io),
            },
        }
    }

    /// The number of glyphs in the font.
    pub open spec fn spec_glyph_count(&self) -> u32 {
        self.native().glyphs@.len() as u32
    }

    /// The PostScript name of the font.
    pub open spec fn spec_postscript_name(&self) -> Option<Seq<char>> {
        self.native().spec_postscript_name()
    }

    /// The full name of the font.
    pub open spec fn spec_full_name(&self) -> Seq<char> {
        self.native().spec_full_name()
    }

    /// The name of the family of the font.
    pub open spec fn spec_family_name(&self) -> Seq<char> {
        self.native().spec_family_name()
    }

    /// The properties of the font.
    pub open spec fn spec_properties(&self) -> Properties {
        self.native().spec_properties()
    }

    /// The metrics of the font.
    pub open spec fn spec_metrics(&self) -> Metrics {
        self.native().spec_metrics()
    }

    /// The bounds of a glyph of the font; an error for any other glyph ID.
    pub open spec fn spec_typographic_bounds(&self, glyph_id: u32) -> Result<
        RectI,
        GlyphLoadingError,
    > {
        if glyph_id < self.spec_glyph_count() {
            Ok(self.native().glyphs@[glyph_id as int].bounds)
        } else {
            Err(GlyphLoadingError::NoSuchGlyph)
        }
    }

    /// The advance of a glyph of the font; an error for any other glyph ID.
    pub open spec fn spec_advance(&self, glyph_id: u32) -> Result<Vector2I, GlyphLoadingError> {
        if glyph_id < self.spec_glyph_count() {
            Ok(self.native().glyphs@[glyph_id as int].advance)
        } else {
            Err(GlyphLoadingError::NoSuchGlyph)
        }
    }

    /// The origin of a glyph of the font, which is zero; an error for any
    /// other glyph ID.
    pub open spec fn spec_origin(&self, glyph_id: u32) -> Result<Vector2I, GlyphLoadingError> {
        if glyph_id < self.spec_glyph_count() {
            Ok(Vector2I::spec_zero())
        } else {
            Err(GlyphLoadingError::NoSuchGlyph)
        }
    }

    /// Whether hinting of the given kind is supported: always for a rendered
    /// glyph, and for an outline where none is asked for.
    pub open spec fn spec_supports_hinting_options(
        hinting_options: HintingOptions,
        for_rasterization: bool,
    ) -> bool {
        hinting_options is Unhinted || for_rasterization
    }

    /// Why the outline of a glyph cannot be had; `None` where it can. An
    /// unknown glyph is reported before unsupported hinting.
    pub open spec fn spec_outline_error(&self, glyph_id: u32, hinting: HintingOptions) -> Option<
        GlyphLoadingError,
    > {
        if glyph_id >= self.spec_glyph_count() {
            Some(GlyphLoadingError::NoSuchGlyph)
        } else if !Font::spec_supports_hinting_options(hinting, false) {
            Some(GlyphLoadingError::UnsupportedHinting)
        } else {
            None
        }
    }

    /// What `outline` returns, and what the sink has received after it, as
    /// against `before`: on success the segments of the glyph were added in
    /// their order, on an error nothing was.
    pub open spec fn spec_outlined(
        &self,
        glyph_id: u32,
        hinting: HintingOptions,
        before: Seq<PathSegment>,
        after: Seq<PathSegment>,
        result: Result<(), GlyphLoadingError>,
    ) -> bool {
        match result {
            Ok(_) => {
                &&& self.spec_outline_error(glyph_id, hinting) is None
                &&& after == before + self.native().glyphs@[glyph_id as int].outline@
            },
            Err(error) => {
                &&& self.spec_outline_error(glyph_id, hinting) == Some(error)
                &&& after == before
            },
        }
    }

    /// The bounds of a glyph of the font as rendered; an error for any other
    /// glyph ID.
    pub open spec fn spec_raster_bounds(&self, glyph_id: u32, bitmap: &GlyphBitmap) -> Result<
        RectI,
        GlyphLoadingError,
    > {
        if glyph_id < self.spec_glyph_count() {
            Ok(bitmap.spec_bounds())
        } else {
            Err(GlyphLoadingError::NoSuchGlyph)
        }
    }

    /// What `rasterize_glyph` returns, and what it makes of the canvas: for
    /// a glyph of the font, `after` is `before` with the image copied onto
    /// it, `bitmap.left()` columns to the right of the first column and
    /// `bitmap.top()` rows above the first row; for any other glyph ID, the
    /// canvas is as it was.
    pub open spec fn spec_rasterized(
        &self,
        glyph_id: u32,
        bitmap: &GlyphBitmap,
        before: &Canvas,
        after: &Canvas,
        result: Result<(), GlyphLoadingError>,
    ) -> bool {
        if glyph_id < self.spec_glyph_count() {
            &&& result is Ok
            &&& after.is_blit_of(
                before,
                &bitmap.spec_image(),
                bitmap.spec_left() as int,
                -(bitmap.spec_top() as int),
            )
        } else {
            &&& result == Err::<(), GlyphLoadingError>(GlyphLoadingError::NoSuchGlyph)
            &&& *after == *before
        }
    }

    /// The handle to the bytes that the font keeps, where it keeps them.
    pub open spec fn spec_handle(&self) -> Option<HandleView> {
        match self.data() {
            Some(bytes) => Some(HandleView::Memory { bytes, font_index: self.index() }),
            None => None,
        }
    }

    /// Makes a font of the face that the engine read at `font_index` from
    /// the contents `font_data` of a font file; `native` is `None` where the
    /// engine could read no such face. The font keeps the bytes.
    ///
    /// For a file with a single font, `font_index` is 0.
    pub fn from_bytes(font_data: Arc<Vec<u8>>, font_index: u32, native: Option<NativeFont>) -> (result:
        Result<Font, FontLoadingError>)
        ensures
            Font::spec_opened(font_data@, font_index, native, result),
    {
        let file_type: FileType = match analyze(&font_data) {
            Ok(file_type) => file_type,
            Err(error) => {
                return Err(error);
            },
        };
        if font_index >= file_type.face_count() {
            return Err(FontLoadingError::NoSuchFontInCollection);
        }
        match native {
            Some(face) => {
                if face.is_valid() && format_agrees(&font_data, face.format) {
                    Ok(Font { face, font_data: Some(font_data), font_index })
                } else {
                    Err(FontLoadingError::Parse)
                }
            },
            None => Err(FontLoadingError::Parse),
        }
    }

    /// Makes a font of a face that comes straight from the engine, without
    /// the bytes of a file. The caller vouches for the face: it is not looked
    /// at again.
    pub fn from_native_font(native: NativeFont) -> (font: Font)
        requires
            native.wf(),
        ensures
            font.wf(),
            font.native_handle() == native,
            font.native() == *native,
            font.data() is None,
            font.index() == 0,
    {
        Font { face: native, font_data: None, font_index: 0 }
    }

    /// Opens the font that a handle points to, given the face that the
    /// engine read at the handle's index from the bytes that the handle
    /// stands for.
    ///
    /// A handle to bytes carries them, and `contents` is not looked at. For a
    /// handle to a file, `contents` are the bytes that were read from the file
    /// at its path, or `None` where the file could not be read: the font is
    /// opened from them as `from_bytes` opens it, and keeps them. The handle
    /// stays as it is, and every call makes a font of its own.
    pub fn from_handle(
        handle: &Handle,
        contents: Option<Arc<Vec<u8>>>,
        native: Option<NativeFont>,
    ) -> (result: Result<Font, FontLoadingError>)
        ensures
            Font::spec_opened_handle(handle, bytes_shared_view(contents), native, result),
    {
        match handle {
            Handle::Memory { bytes, font_index } => Font::from_bytes(
                share(bytes),
                *font_index,
                native,
            ),
            Handle::Path { font_index, .. } => match contents {
                Some(data) => Font::from_bytes(data, *font_index, native),
                None => Err(FontLoadingError::Io),
            },
        }
    }

    /// Says whether `font_data` is a font file, by its first bytes, and of
    /// what type: a single font or a collection. The fonts themselves are
    /// not read. Data that begins like no supported format is answered with
    /// `UnknownFormat`.
    pub fn analyze_bytes(font_data: Arc<Vec<u8>>) -> (result: Result<FileType, FontLoadingError>)
        ensures
            result == spec_analyze(font_data@),
            !spec_recognized(font_data@) ==> result == Err::<FileType, FontLoadingError>(
                FontLoadingError::UnknownFormat,
            ),
    {
        analyze(&font_data)
    }

    /// The face of the font, shared: the reference count of the face goes up
    /// by one, and the caller's handle keeps the face alive.
    pub fn native_font(&self) -> (native: NativeFont)
        ensures
            native == self.native_handle(),
            *native == self.native(),
    {
        share(&self.face)
    }

    /// The PostScript name of the font: the one the engine reports, where
    /// that is not empty; for a BDF or PCF font without one, the name that the
    /// property `_DEC_DEVICE_FONTNAMES` gives in the form `PS=name`. The
    /// name is never empty.
    pub fn postscript_name(&self) -> (name: Option<String>)
        ensures
            text_view(name) == self.spec_postscript_name(),
            name matches Some(n) ==> n@.len() > 0,
    {
        match &self.face.postscript_name {
            Some(name) => {
                if !name.as_str().is_empty() {
                    return Some(name.clone());
                }
            },
            None => {},
        }
        match self.face.format {
            FontFormat::Bdf => self.device_postscript_name(),
            FontFormat::Pcf => self.device_postscript_name(),
            _ => None,
        }
    }

    /// The full name of the font; the family name where the face has none.
    pub fn full_name(&self) -> (name: String)
        ensures
            name@ == self.spec_full_name(),
    {
        match self.get_type_1_or_sfnt_name(PS_DICT_FULL_NAME, TT_NAME_ID_FULL_NAME) {
            Some(name) => name,
            None => self.family_name(),
        }
    }

    /// The name of the family of the font; empty where the face has none.
    pub fn family_name(&self) -> (name: String)
        ensures
            name@ == self.spec_family_name(),
    {
        match &self.face.family_name {
            Some(name) => name.clone(),
            None => String::new(),
        }
    }

    /// Whether all the glyphs of the font have the same width.
    pub fn is_monospace(&self) -> (monospace: bool)
        ensures
            monospace == self.native().is_fixed_width,
    {
        self.face.is_fixed_width
    }

    /// The properties of the font, on the scales of CSS. Without an OS/2
    /// table weight and stretch are normal.
    pub fn properties(&self) -> (properties: Properties)
        ensures
            properties == self.spec_properties(),
    {
        let style: Style = match self.face.os2 {
            Some(os2) => {
                if os2.fs_selection & OS2_FS_SELECTION_OBLIQUE != 0 {
                    Style::Oblique
                } else if self.face.is_italic {
                    Style::Italic
                } else {
                    Style::Normal
                }
            },
            None => {
                if self.face.is_italic {
                    Style::Italic
                } else {
                    Style::Normal
                }
            },
        };
        match self.face.os2 {
            Some(os2) => Properties {
                style,
                weight: Weight(os2.weight_class),
                stretch: Stretch(stretch_of_width_class(os2.width_class)),
            },
            None => Properties {
                style,
                weight: Weight(WEIGHT_NORMAL),
                stretch: Stretch(stretch_of_width_class(0)),
            },
        }
    }

    /// The glyph that usually stands for a character, or `None` where the
    /// font has none for it. The answer serves to show a character on its
    /// own; laying out text takes a shaper.
    pub fn glyph_for_char(&self, character: char) -> (glyph_id: Option<u32>)
        ensures
            glyph_id == self.native().spec_glyph_for_char(character),
            glyph_id matches Some(id) ==> id < self.spec_glyph_count(),
    {
        proof {
            use_type_invariant(self);
        }
        let mut i: usize = 0;
        while i < self.face.charmap.len()
            invariant
                i <= self.face.charmap@.len(),
                self.face.glyphs@.len() <= u32::MAX,
                mapped_glyph_from(self.face.charmap@, character, 0) == mapped_glyph_from(
                    self.face.charmap@,
                    character,
                    i as int,
                ),
            decreases self.face.charmap@.len() - i,
        {
            if self.face.charmap[i].character == character {
                let glyph_id: u32 = self.face.charmap[i].glyph_id;
                if 0 < glyph_id && (glyph_id as usize) < self.face.glyphs.len() {
                    return Some(glyph_id);
                } else {
                    return None;
                }
            }
            i += 1;
        }
        None
    }

    /// The glyph with the given name, or `None` where the font has none. No
    /// glyph goes by the empty name.
    pub fn glyph_by_name(&self, name: &str) -> (glyph_id: Option<u32>)
        ensures
            glyph_id == self.native().spec_glyph_by_name(name@),
            glyph_id matches Some(id) ==> id < self.spec_glyph_count(),
    {
        proof {
            use_type_invariant(self);
        }
        if name.is_empty() {
            return None;
        }
        let wanted: String = String::from_str(name);
        let mut i: usize = 0;
        while i < self.face.glyphs.len()
            invariant
                i <= self.face.glyphs@.len(),
                self.face.glyphs@.len() <= u32::MAX,
                name@.len() > 0,
                wanted@ == name@,
                named_glyph_from(self.face.glyphs@, name@, 0) == named_glyph_from(
                    self.face.glyphs@,
                    name@,
                    i as int,
                ),
            decreases self.face.glyphs@.len() - i,
        {
            if self.face.glyphs[i].name == wanted {
                if i > 0 {
                    return Some(i as u32);
                } else {
                    return None;
                }
            }
            i += 1;
        }
        None
    }

    /// The number of glyphs in the font. Glyph IDs are the numbers below it.
    ///
    /// The count is that of the face, which no operation changes: every call
    /// on a font returns the same number.
    #[verifier::when_used_as_spec(spec_glyph_count)]
    pub fn glyph_count(&self) -> (count: u32)
        ensures
            count == self.spec_glyph_count(),
            count == self.native().glyphs@.len(),
    {
        proof {
            use_type_invariant(self);
        }
        self.face.glyphs.len() as u32
    }

    /// Sends the path around a glyph to a sink, segment by segment, in font
    /// units. On an error nothing is sent.
    pub fn outline<S: OutlineSink>(&self, glyph_id: u32, hinting: HintingOptions, sink: &mut S) -> (result:
        Result<(), GlyphLoadingError>)
        ensures
            self.spec_outlined(
                glyph_id,
                hinting,
                old(sink).received(),
                final(sink).received(),
                result,
            ),
    {
        proof {
            use_type_invariant(self);
        }
        if (glyph_id as usize) >= self.face.glyphs.len() {
            return Err(GlyphLoadingError::NoSuchGlyph);
        }
        if !self.supports_hinting_options(hinting, false) {
            return Err(GlyphLoadingError::UnsupportedHinting);
        }
        send_segments(sink, &self.face.glyphs[glyph_id as usize].outline);
        Ok(())
    }

    /// The smallest rectangle around a glyph, in font units, as the engine
    /// measured it.
    pub fn typographic_bounds(&self, glyph_id: u32) -> (result: Result<RectI, GlyphLoadingError>)
        ensures
            result == self.spec_typographic_bounds(glyph_id),
    {
        proof {
            use_type_invariant(self);
        }
        if (glyph_id as usize) < self.face.glyphs.len() {
            Ok(self.face.glyphs[glyph_id as usize].bounds)
        } else {
            Err(GlyphLoadingError::NoSuchGlyph)
        }
    }

    /// The distance from the origin of a glyph to that of the next, in font
    /// units. It is to be had for every glyph ID below the glyph count, and
    /// for no other.
    pub fn advance(&self, glyph_id: u32) -> (result: Result<Vector2I, GlyphLoadingError>)
        ensures
            result == self.spec_advance(glyph_id),
            result is Ok <==> glyph_id < self.spec_glyph_count(),
    {
        proof {
            use_type_invariant(self);
        }
        if (glyph_id as usize) < self.face.glyphs.len() {
            Ok(self.face.glyphs[glyph_id as usize].advance)
        } else {
            Err(GlyphLoadingError::NoSuchGlyph)
        }
    }

    /// How far a glyph is to be moved from the origin: nowhere, for every
    /// glyph of the font.
    pub fn origin(&self, glyph_id: u32) -> (result: Result<Vector2I, GlyphLoadingError>)
        ensures
            result == self.spec_origin(glyph_id),
    {
        proof {
            use_type_invariant(self);
        }
        if (glyph_id as usize) < self.face.glyphs.len() {
            Ok(Vector2I::zero())
        } else {
            Err(GlyphLoadingError::NoSuchGlyph)
        }
    }

    /// The metrics of the font, in font units. The descent is negative in
    /// most fonts: it is measured from the baseline upwards.
    pub fn metrics(&self) -> (metrics: Metrics)
        ensures
            metrics == self.spec_metrics(),
    {
        let ascender: i32 = self.face.ascender as i32;
        let descender: i32 = self.face.descender as i32;
        let thickness: i32 = self.face.underline_thickness as i32;
        Metrics {
            units_per_em: self.face.units_per_em as u32,
            ascent: ascender,
            descent: descender,
            line_gap: self.face.height as i32 + descender - ascender,
            underline_position: self.face.underline_position as i32 + thickness / 2,
            underline_thickness: thickness,
            cap_height: match self.face.os2 {
                Some(os2) => os2.cap_height as i32,
                None => 0,
            },
            x_height: match self.face.os2 {
                Some(os2) => os2.x_height as i32,
                None => 0,
            },
        }
    }

    /// Whether the loader can hint in the requested way: outlines come
    /// unhinted only; a rendered glyph is hinted as the engine was asked.
    pub fn supports_hinting_options(&self, hinting_options: HintingOptions, for_rasterization: bool) -> (supported:
        bool)
        ensures
            supported == Font::spec_supports_hinting_options(hinting_options, for_rasterization),
    {
        match hinting_options {
            HintingOptions::Unhinted => true,
            _ => for_rasterization,
        }
    }

    /// The value of the Type 1 dictionary under the given key.
    fn type_1_value(&self, type_1_id: u32) -> (value: Option<String>)
        ensures
            text_view(value) == type_1_value_from(self.native().type_1_values@, type_1_id, 0),
    {
        let mut i: usize = 0;
        while i < self.face.type_1_values.len()
            invariant
                i <= self.face.type_1_values@.len(),
                type_1_value_from(self.face.type_1_values@, type_1_id, 0) == type_1_value_from(
                    self.face.type_1_values@,
                    type_1_id,
                    i as int,
                ),
            decreases self.face.type_1_values@.len() - i,
        {
            if self.face.type_1_values[i].key == type_1_id {
                return Some(self.face.type_1_values[i].value.clone());
            }
            i += 1;
        }
        None
    }

    /// The texts of the name records that carry the name with the given ID,
    /// in the order of the records; `None` for a record whose string cannot
    /// be decoded.
    fn sfnt_name_texts(&self, sfnt_id: u16) -> (texts: Vec<Option<String>>)
        ensures
            texts_view(texts@) == sfnt_name_texts_from(self.native().sfnt_names@, sfnt_id, 0),
    {
        let ghost names = self.face.sfnt_names@;
        let mut texts: Vec<Option<String>> = Vec::new();
        proof {
            assert(texts_view(texts@) + sfnt_name_texts_from(names, sfnt_id, 0)
                =~= sfnt_name_texts_from(names, sfnt_id, 0));
        }
        let mut i: usize = 0;
        while i < self.face.sfnt_names.len()
            invariant
                i <= names.len(),
                names == self.face.sfnt_names@,
                texts_view(texts@) + sfnt_name_texts_from(names, sfnt_id, i as int)
                    == sfnt_name_texts_from(names, sfnt_id, 0),
            decreases names.len() - i,
        {
            let record: &SfntName = &self.face.sfnt_names[i];
            if record.name_id == sfnt_id && record.platform_id == TT_PLATFORM_APPLE_UNICODE {
                let text: Option<String> = decode_utf16_be(&record.string);
                let ghost before = texts@;
                texts.push(text);
                proof {
                    assert(texts_view(texts@) =~= texts_view(before).push(text_view(text)));
                    assert(texts_view(before).push(text_view(text)) + sfnt_name_texts_from(
                        names,
                        sfnt_id,
                        i + 1,
                    ) =~= texts_view(before) + (seq![text_view(text)] + sfnt_name_texts_from(
                        names,
                        sfnt_id,
                        i + 1,
                    )));
                }
            }
            i += 1;
        }
        proof {
            assert(texts_view(texts@) + Seq::<Option<Seq<char>>>::empty() =~= texts_view(texts@));
        }
        texts
    }

    /// The name with the given ID: from the Type 1 dictionary where it has an
    /// entry under `type_1_id`, else from the first SFNT name record with
    /// `sfnt_id` that holds big-endian UTF-16 text that can be decoded.
    pub fn get_type_1_or_sfnt_name(&self, type_1_id: u32, sfnt_id: u16) -> (name: Option<String>)
        ensures
            text_view(name) == self.native().spec_type_1_or_sfnt_name(type_1_id, sfnt_id),
    {
        match self.type_1_value(type_1_id) {
            Some(value) => Some(value),
            None => {
                let sfnt_texts: Vec<Option<String>> = self.sfnt_name_texts(sfnt_id);
                choose_name(None, &sfnt_texts)
            },
        }
    }

    /// The OS/2 table of the font, where it has one.
    pub fn get_os2_table(&self) -> (table: Option<Os2Table>)
        ensures
            table == self.native().os2,
    {
        self.face.os2
    }

    /// The PostScript name that the properties of a BDF or PCF font give.
    fn device_postscript_name(&self) -> (name: Option<String>)
        ensures
            text_view(name) == self.native().spec_device_postscript_name(),
    {
        let key: String = String::from_str("_DEC_DEVICE_FONTNAMES");
        let mut i: usize = 0;
        while i < self.face.bdf_properties.len()
            invariant
                i <= self.face.bdf_properties@.len(),
                key@ == "_DEC_DEVICE_FONTNAMES"@,
                bdf_property_from(self.face.bdf_properties@, key@, 0) == bdf_property_from(
                    self.face.bdf_properties@,
                    key@,
                    i as int,
                ),
            decreases self.face.bdf_properties@.len() - i,
        {
            if self.face.bdf_properties[i].name == key {
                return match &self.face.bdf_properties[i].value {
                    BdfValue::Atom(value) => device_font_name(value.as_str()),
                    _ => None,
                };
            }
            i += 1;
        }
        None
    }

    /// The rectangle of pixels that a glyph takes up as the engine rendered
    /// it, the pen being at the origin and rows counting downwards.
    pub fn raster_bounds(&self, glyph_id: u32, bitmap: &GlyphBitmap) -> (result: Result<
        RectI,
        GlyphLoadingError,
    >)
        ensures
            result == self.spec_raster_bounds(glyph_id, bitmap),
    {
        proof {
            use_type_invariant(self);
        }
        if (glyph_id as usize) >= self.face.glyphs.len() {
            return Err(GlyphLoadingError::NoSuchGlyph);
        }
        Ok(bitmap.bounds())
    }

    /// Draws a glyph that the engine has rendered onto a canvas: the image
    /// goes `bitmap.left()` columns to the right of the canvas's first column
    /// and `bitmap.top()` rows above its first row, and what falls outside
    /// the canvas is left out. Where the formats of image and canvas differ,
    /// each pixel is converted to the format of the canvas: this succeeds for
    /// every pair of formats. For a glyph that the font does not have, the
    /// canvas stays as it was.
    pub fn rasterize_glyph(&self, canvas: &mut Canvas, glyph_id: u32, bitmap: &GlyphBitmap) -> (result:
        Result<(), GlyphLoadingError>)
        ensures
            self.spec_rasterized(glyph_id, bitmap, old(canvas), final(canvas), result),
    {
        proof {
            use_type_invariant(self);
        }
        if (glyph_id as usize) >= self.face.glyphs.len() {
            return Err(GlyphLoadingError::NoSuchGlyph);
        }
        canvas.blit_from(bitmap.image(), bitmap.left() as i64, -(bitmap.top() as i64));
        Ok(())
    }

    /// The flags of the request that asks the engine for a glyph hinted and
    /// rendered as wished.
    pub fn hinting_and_rasterization_options_to_load_flags(
        &self,
        hinting: HintingOptions,
        rasterization: RasterizationOptions,
    ) -> (flags: i32)
        ensures
            flags == spec_load_flags(hinting, rasterization),
    {
        let target: i32 = match (hinting, rasterization) {
            (HintingOptions::VerticalSubpixel(_), _) => FT_LOAD_TARGET_LCD,
            (_, RasterizationOptions::SubpixelAa) => FT_LOAD_TARGET_LCD,
            (HintingOptions::Unhinted, _) => FT_LOAD_TARGET_NORMAL + FT_LOAD_NO_HINTING,
            (HintingOptions::Vertical(_), RasterizationOptions::Bilevel) => FT_LOAD_TARGET_MONO,
            (HintingOptions::Full(_), RasterizationOptions::Bilevel) => FT_LOAD_TARGET_MONO,
            (HintingOptions::Vertical(_), _) => FT_LOAD_TARGET_LIGHT,
            (HintingOptions::Full(_), _) => FT_LOAD_TARGET_NORMAL,
        };
        match rasterization {
            RasterizationOptions::Bilevel => target + FT_LOAD_MONOCHROME,
            _ => target,
        }
    }

    /// A handle by which the font can be opened again, by this loader or
    /// another; `None` where the font does not keep the bytes of its file.
    pub fn handle(&self) -> (handle: Option<Handle>)
        ensures
            match handle {
                Some(h) => self.spec_handle() == Some(h@),
                None => self.spec_handle() is None,
            },
    {
        match &self.font_data {
            Some(font_data) => Some(Handle::from_memory(share(font_data), self.font_index)),
            None => None,
        }
    }

    /// The bytes of the file that the font was opened from: those of the
    /// whole file, also where the font is one of a collection. `None` where
    /// the font does not keep them. The bytes are shared, not copied.
    pub fn copy_font_data(&self) -> (font_data: Option<Arc<Vec<u8>>>)
        ensures
            match font_data {
                Some(bytes) => self.data() == Some(bytes@),
                None => self.data() is None,
            },
    {
        match &self.font_data {
            Some(font_data) => Some(share(font_data)),
            None => None,
        }
    }

    /// The fonts to fall back on for `text` in `locale`. This loader knows
    /// none: it names no font, and reports the whole text, by its length in
    /// bytes, as one that needs none.
    pub fn get_fallbacks(&self, text: &str, locale: &str) -> (result: FallbackResult)
        ensures
            result.fonts@.len() == 0,
            result.valid_len == text.len(),
    {
        FallbackResult { fonts: Vec::new(), valid_len: text.len() }
    }

    /// The contents of the table with the given tag, or `None` where the
    /// font has no such table. Tags are four-character codes, read as a
    /// big-endian number.
    pub fn load_font_table(&self, table_tag: u32) -> (table: Option<Vec<u8>>)
        ensures
            bytes_view(table) == self.native().spec_table(table_tag),
    {
        let mut i: usize = 0;
        while i < self.face.tables.len()
            invariant
                i <= self.face.tables@.len(),
                table_from(self.face.tables@, table_tag, 0) == table_from(
                    self.face.tables@,
                    table_tag,
                    i as int,
                ),
            decreases self.face.tables@.len() - i,
        {
            if self.face.tables[i].tag == table_tag {
                return Some(self.face.tables[i].data.clone());
            }
            i += 1;
        }
        None
    }
}

impl Clone for Font {
    /// Another handle to the same font. The face and the bytes are shared by
    /// reference count, not copied: the clone answers every query as the
    /// font does, and goes on doing so when the font is dropped.
    fn clone(&self) -> (font: Font)
        ensures
            font.wf(),
            font.native() == self.native(),
            font.data() == self.data(),
            font.index() == self.index(),
    {
        proof {
            use_type_invariant(self);
        }
        Font {
            face: share(&self.face),
            font_data: match &self.font_data {
                Some(font_data) => Some(share(font_data)),
                None => None,
            },
            font_index: self.font_index,
        }
    }
}

/// A font that was opened from bytes has a PostScript name wherever the
/// engine reports one that is not empty, and that name is the answer; and
/// whatever name a font answers with is not empty.
pub proof fn law_opened_font_has_postscript_name(
    font_data: Seq<u8>,
    font_index: u32,
    native: NativeFont,
    result: Result<Font, FontLoadingError>,
)
    requires
        Font::spec_opened(font_data, font_index, Some(native), result),
        result is Ok,
    ensures
        result->Ok_0.spec_postscript_name() matches Some(name) ==> name.len() > 0,
        native.postscript_name matches Some(name) && name@.len() > 0
            ==> result->Ok_0.spec_postscript_name() == Some(native.postscript_name->0@),
{
}

/// Asking a font twice for its glyph count gives the same number twice: the
/// count is that of the face, and a later answer is never below an earlier
/// one.
pub proof fn law_glyph_count_is_stable(font: Font, earlier: u32, later: u32)
    requires
        earlier == font.spec_glyph_count(),
        later == font.spec_glyph_count(),
    ensures
        later == earlier,
        later >= earlier,
{
}

/// The advance of a glyph is to be had for every glyph ID below the glyph
/// count, and for no other: those are answered with `NoSuchGlyph`.
pub proof fn law_advance_succeeds_on_the_glyphs_of_the_font(font: Font, glyph_id: u32)
    ensures
        glyph_id < font.spec_glyph_count() ==> font.spec_advance(glyph_id) is Ok,
        glyph_id >= font.spec_glyph_count() ==> font.spec_advance(glyph_id) == Err::<
            Vector2I,
            GlyphLoadingError,
        >(GlyphLoadingError::NoSuchGlyph),
{
}

/// The bytes that a font keeps open the same font again: opening them at the
/// font's index succeeds, the engine reading the same face from the same
/// bytes, and the font that comes of it has the same PostScript name, glyph
/// count and metrics, and keeps the same bytes.
pub proof fn law_font_data_round_trips(
    font: Font,
    native: NativeFont,
    reopened: Result<Font, FontLoadingError>,
)
    requires
        font.wf(),
        font.data() is Some,
        *native == font.native(),
        Font::spec_opened(font.data()->0, font.index(), Some(native), reopened),
    ensures
        reopened is Ok,
        reopened->Ok_0.spec_postscript_name() == font.spec_postscript_name(),
        reopened->Ok_0.spec_glyph_count() == font.spec_glyph_count(),
        reopened->Ok_0.spec_metrics() == font.spec_metrics(),
        reopened->Ok_0.data() == font.data(),
        reopened->Ok_0.index() == font.index(),
{
}

/// A clone of a font answers as the font does: the two have the same
/// PostScript name, glyph count and metrics, and the same outline, bounds and
/// advance for every glyph. What becomes of the one does not touch the other.
pub proof fn law_clone_answers_as_the_font(font: Font, clone: Font, glyph_id: u32)
    requires
        clone.native() == font.native(),
    ensures
        clone.spec_postscript_name() == font.spec_postscript_name(),
        clone.spec_glyph_count() == font.spec_glyph_count(),
        clone.spec_metrics() == font.spec_metrics(),
        clone.spec_advance(glyph_id) == font.spec_advance(glyph_id),
        clone.spec_typographic_bounds(glyph_id) == font.spec_typographic_bounds(glyph_id),
        forall|hinting: HintingOptions, before: Seq<PathSegment>, after: Seq<PathSegment>, result: Result<(), GlyphLoadingError>|
            #[trigger] clone.spec_outlined(glyph_id, hinting, before, after, result)
                == font.spec_outlined(glyph_id, hinting, before, after, result),
{
}

/// Opening a handle to a file agrees with opening the contents of the file:
/// the one succeeds exactly where the other does, with the same error where
/// they fail, and the fonts that come of them have the same face, bytes and
/// index, and so the same PostScript name.
pub proof fn law_path_handle_opens_as_its_contents(
    handle: Handle,
    contents: Seq<u8>,
    native: Option<NativeFont>,
    by_handle: Result<Font, FontLoadingError>,
    by_contents: Result<Font, FontLoadingError>,
)
    requires
        handle is Path,
        Font::spec_opened_handle(&handle, Some(contents), native, by_handle),
        Font::spec_opened(contents, handle.spec_font_index(), native, by_contents),
    ensures
        by_handle is Ok <==> by_contents is Ok,
        by_handle matches Err(error) ==> by_contents == Err::<Font, FontLoadingError>(error),
        by_handle is Ok ==> {
            &&& by_handle->Ok_0.native() == by_contents->Ok_0.native()
            &&& by_handle->Ok_0.data() == by_contents->Ok_0.data()
            &&& by_handle->Ok_0.index() == by_contents->Ok_0.index()
            &&& by_handle->Ok_0.spec_postscript_name() == by_contents->Ok_0.spec_postscript_name()
        },
{
}

/// Data that begins like no supported font format is answered with
/// `UnknownFormat`, whatever else it holds.
pub proof fn law_unrecognized_data_is_unknown_format(font_data: Seq<u8>)
    requires
        !spec_recognized(font_data),
    ensures
        spec_analyze(font_data) == Err::<FileType, FontLoadingError>(
            FontLoadingError::UnknownFormat,
        ),
{
}

/// A rendered glyph can be drawn onto a canvas whatever the formats of the
/// two: drawing a glyph of the font succeeds, and every pixel of the canvas
/// that the image covers then holds the pixel of the image as the format of
/// the canvas keeps it.
pub proof fn law_rasterization_converts_formats(
    font: Font,
    glyph_id: u32,
    bitmap: GlyphBitmap,
    before: Canvas,
    after: Canvas,
    result: Result<(), GlyphLoadingError>,
    x: int,
    y: int,
)
    requires
        before.wf(),
        glyph_id < font.spec_glyph_count(),
        font.spec_rasterized(glyph_id, &bitmap, &before, &after, result),
        0 <= x < before.spec_width(),
        0 <= y < before.spec_height(),
        Canvas::covers(&bitmap.spec_image(), bitmap.spec_left() as int, -bitmap.spec_top(), x, y),
    ensures
        result is Ok,
        after.spec_format() == before.spec_format(),
        after.spec_pixel(x, y) == before.spec_format().spec_stored(
            bitmap.spec_image().spec_pixel(x - bitmap.spec_left(), y + bitmap.spec_top()),
        ),
{
    assert(after.spec_pixel(x, y) == before.spec_blitted(
        &bitmap.spec_image(),
        bitmap.spec_left() as int,
        -(bitmap.spec_top() as int),
        x,
        y,
    ));
}

/// Drawing a glyph writes its coverage: where the image covers a place of the
/// canvas with a pixel whose alpha is at least 128, the pixel of the canvas
/// there has an alpha of at least 128 afterwards, whatever the formats of the
/// two, and the sum of the bytes of the canvas is more than zero. A fainter
/// pixel shows on a canvas of eight or thirty-two bits, and is lost on one of
/// one bit.
pub proof fn law_rasterization_writes_coverage(
    font: Font,
    glyph_id: u32,
    bitmap: GlyphBitmap,
    before: Canvas,
    after: Canvas,
    result: Result<(), GlyphLoadingError>,
    x: int,
    y: int,
)
    requires
        before.wf(),
        glyph_id < font.spec_glyph_count(),
        font.spec_rasterized(glyph_id, &bitmap, &before, &after, result),
        0 <= x < before.spec_width(),
        0 <= y < before.spec_height(),
        Canvas::covers(&bitmap.spec_image(), bitmap.spec_left() as int, -bitmap.spec_top(), x, y),
    ensures
        result is Ok,
        bitmap.spec_image().spec_pixel(x - bitmap.spec_left(), y + bitmap.spec_top()).a >= 128 ==> {
            &&& after.spec_pixel(x, y).a >= 128
            &&& byte_sum(after.bytes()) > 0
        },
        bitmap.spec_image().spec_pixel(x - bitmap.spec_left(), y + bitmap.spec_top()).a != 0
            && before.spec_format() != Format::Bilevel ==> {
            &&& after.spec_pixel(x, y).a != 0
            &&& byte_sum(after.bytes()) > 0
        },
{
    law_rasterization_converts_formats(font, glyph_id, bitmap, before, after, result, x, y);
    if after.spec_pixel(x, y).a != 0 {
        law_coverage_shows_in_the_bytes(after, x, y);
    }
}

} // verus!
