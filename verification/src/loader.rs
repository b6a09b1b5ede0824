//! What every font loader offers, whatever engine stands behind it.

use crate::canvas::{Canvas, GlyphBitmap, RasterizationOptions};
use crate::error::{FontLoadingError, GlyphLoadingError};
use crate::face::NativeFont;
use crate::file_type::{spec_analyze, spec_recognized, FileType};
use crate::font::{bytes_view, text_view, FallbackResult, Font};
use crate::geometry::{RectI, Vector2I};
use crate::handle::Handle;
use crate::hinting::HintingOptions;
use crate::metrics::Metrics;
use crate::outline::{OutlineSink, PathSegment};
use crate::properties::Properties;
use std::sync::Arc;
use vstd::prelude::*;

verus! {

/// The operations of a font loader.
///
/// A loader answers every query from what the font is: the same font gives
/// the same answer at every call. Queries that describe the font never fail:
/// where the font does not say, they answer with `None`, an empty name,
/// `false` or zero. Operations on a glyph fail on every glyph ID that is not
/// below the glyph count, and on no other, save that an outline cannot be had
/// with hinting that the loader does not support.
pub trait Loader: Sized {
    /// The handle by which the engine knows an open face.
    type NativeFont;

    /// Whether a face from the engine is one that a font can be made of.
    spec fn valid_native_font(native: Self::NativeFont) -> bool;

    /// The handle to the face of the font.
    spec fn loaded_native_font(&self) -> Self::NativeFont;

    /// The bytes of the file that the font was opened from, where the font
    /// keeps them.
    spec fn loaded_font_data(&self) -> Option<Seq<u8>>;

    /// The index of the font within its file.
    spec fn loaded_font_index(&self) -> u32;

    /// The PostScript name of the font.
    spec fn loaded_postscript_name(&self) -> Option<Seq<char>>;

    /// The full name of the font.
    spec fn loaded_full_name(&self) -> Seq<char>;

    /// The name of the family of the font.
    spec fn loaded_family_name(&self) -> Seq<char>;

    /// Whether all the glyphs of the font have the same width.
    spec fn loaded_is_monospace(&self) -> bool;

    /// The properties of the font.
    spec fn loaded_properties(&self) -> Properties;

    /// The metrics of the font.
    spec fn loaded_metrics(&self) -> Metrics;

    /// The number of glyphs of the font.
    spec fn loaded_glyph_count(&self) -> u32;

    /// The glyph that stands for a character.
    spec fn loaded_glyph_for_char(&self, character: char) -> Option<u32>;

    /// The glyph with the given name.
    spec fn loaded_glyph_by_name(&self, name: Seq<char>) -> Option<u32>;

    /// The path around a glyph of the font.
    spec fn loaded_outline(&self, glyph_id: u32) -> Seq<PathSegment>;

    /// The bounds of a glyph of the font.
    spec fn loaded_typographic_bounds(&self, glyph_id: u32) -> RectI;

    /// The advance of a glyph of the font.
    spec fn loaded_advance(&self, glyph_id: u32) -> Vector2I;

    /// The origin of a glyph of the font.
    spec fn loaded_origin(&self, glyph_id: u32) -> Vector2I;

    /// Whether the loader can hint in the given way.
    spec fn loaded_supports_hinting_options(
        hinting_options: HintingOptions,
        for_rasterization: bool,
    ) -> bool;

    /// The contents of the table with the given tag.
    spec fn loaded_font_table(&self, table_tag: u32) -> Option<Seq<u8>>;

    /// Makes a font of the face that the engine read at `font_index` from
    /// `font_data`. A font that was opened from bytes keeps them.
    fn from_bytes(font_data: Arc<Vec<u8>>, font_index: u32, native: Option<Self::NativeFont>) -> (result:
        Result<Self, FontLoadingError>)
        ensures
            !spec_recognized(font_data@) ==> result matches Err(FontLoadingError::UnknownFormat),
            native is None ==> result is Err,
            result matches Ok(font) ==> font.loaded_font_data() == Some(font_data@)
                && font.loaded_font_index() == font_index && Some(font.loaded_native_font())
                == native,
    ;

    /// Makes a font of a face that comes straight from the engine. Such a
    /// font keeps no bytes.
    fn from_native_font(native: Self::NativeFont) -> (font: Self)
        requires
            Self::valid_native_font(native),
        ensures
            font.loaded_native_font() == native,
            font.loaded_font_data() is None,
    ;

    /// Says whether `font_data` is a font file, and of what type.
    fn analyze_bytes(font_data: Arc<Vec<u8>>) -> (result: Result<FileType, FontLoadingError>)
        ensures
            !spec_recognized(font_data@) ==> result matches Err(FontLoadingError::UnknownFormat),
            result is Ok ==> spec_recognized(font_data@),
    ;

    /// The face of the font, shared with it.
    fn native_font(&self) -> (native: Self::NativeFont)
        ensures
            native == self.loaded_native_font(),
    ;

    /// The PostScript name of the font, which is never empty.
    fn postscript_name(&self) -> (name: Option<String>)
        ensures
            text_view(name) == self.loaded_postscript_name(),
            name matches Some(n) ==> n@.len() > 0,
    ;

    /// The full name of the font.
    fn full_name(&self) -> (name: String)
        ensures
            name@ == self.loaded_full_name(),
    ;

    /// The name of the family of the font.
    fn family_name(&self) -> (name: String)
        ensures
            name@ == self.loaded_family_name(),
    ;

    /// Whether all the glyphs of the font have the same width.
    fn is_monospace(&self) -> (monospace: bool)
        ensures
            monospace == self.loaded_is_monospace(),
    ;

    /// The properties of the font, on the scales of CSS.
    fn properties(&self) -> (properties: Properties)
        ensures
            properties == self.loaded_properties(),
    ;

    /// The glyph that usually stands for a character: one of the font.
    fn glyph_for_char(&self, character: char) -> (glyph_id: Option<u32>)
        ensures
            glyph_id == self.loaded_glyph_for_char(character),
            glyph_id matches Some(id) ==> id < self.loaded_glyph_count(),
    ;

    /// The glyph with the given name: one of the font.
    fn glyph_by_name(&self, name: &str) -> (glyph_id: Option<u32>)
        ensures
            glyph_id == self.loaded_glyph_by_name(name@),
            glyph_id matches Some(id) ==> id < self.loaded_glyph_count(),
    ;

    /// The number of glyphs in the font.
    fn glyph_count(&self) -> (count: u32)
        ensures
            count == self.loaded_glyph_count(),
    ;

    /// Sends the path around a glyph to a sink, after what the sink had
    /// received before. On an error nothing is sent.
    fn outline<S: OutlineSink>(&self, glyph_id: u32, hinting: HintingOptions, sink: &mut S) -> (result:
        Result<(), GlyphLoadingError>)
        ensures
            glyph_id >= self.loaded_glyph_count() <==> result matches Err(
                GlyphLoadingError::NoSuchGlyph,
            ),
            glyph_id < self.loaded_glyph_count() ==> (result is Ok
                <==> Self::loaded_supports_hinting_options(hinting, false)),
            glyph_id < self.loaded_glyph_count() && hinting is Unhinted ==> result is Ok,
            result is Ok ==> final(sink).received() == old(sink).received() + self.loaded_outline(
                glyph_id,
            ),
            result is Err ==> final(sink).received() == old(sink).received(),
    ;

    /// The smallest rectangle around a glyph, in font units.
    fn typographic_bounds(&self, glyph_id: u32) -> (result: Result<RectI, GlyphLoadingError>)
        ensures
            result == if glyph_id < self.loaded_glyph_count() {
                Ok::<RectI, GlyphLoadingError>(self.loaded_typographic_bounds(glyph_id))
            } else {
                Err::<RectI, GlyphLoadingError>(GlyphLoadingError::NoSuchGlyph)
            },
    ;

    /// The distance from the origin of a glyph to that of the next.
    fn advance(&self, glyph_id: u32) -> (result: Result<Vector2I, GlyphLoadingError>)
        ensures
            result == if glyph_id < self.loaded_glyph_count() {
                Ok::<Vector2I, GlyphLoadingError>(self.loaded_advance(glyph_id))
            } else {
                Err::<Vector2I, GlyphLoadingError>(GlyphLoadingError::NoSuchGlyph)
            },
    ;

    /// How far a glyph is to be moved from the origin.
    fn origin(&self, glyph_id: u32) -> (result: Result<Vector2I, GlyphLoadingError>)
        ensures
            result == if glyph_id < self.loaded_glyph_count() {
                Ok::<Vector2I, GlyphLoadingError>(self.loaded_origin(glyph_id))
            } else {
                Err::<Vector2I, GlyphLoadingError>(GlyphLoadingError::NoSuchGlyph)
            },
    ;

    /// The metrics of the font.
    fn metrics(&self) -> (metrics: Metrics)
        ensures
            metrics == self.loaded_metrics(),
    ;

    /// The bytes of the file that the font was opened from, where the font
    /// keeps them.
    fn copy_font_data(&self) -> (font_data: Option<Arc<Vec<u8>>>)
        ensures
            match font_data {
                Some(bytes) => self.loaded_font_data() == Some(bytes@),
                None => self.loaded_font_data() is None,
            },
    ;

    /// Whether the loader can hint in the requested way. Unhinted output is
    /// always to be had.
    fn supports_hinting_options(&self, hinting_options: HintingOptions, for_rasterization: bool) -> (supported:
        bool)
        ensures
            supported == Self::loaded_supports_hinting_options(hinting_options, for_rasterization),
            hinting_options is Unhinted ==> supported,
    ;

    /// The rectangle of pixels that a glyph takes up as the engine rendered
    /// it.
    fn raster_bounds(&self, glyph_id: u32, bitmap: &GlyphBitmap) -> (result: Result<
        RectI,
        GlyphLoadingError,
    >)
        ensures
            result == if glyph_id < self.loaded_glyph_count() {
                Ok::<RectI, GlyphLoadingError>(bitmap.spec_bounds())
            } else {
                Err::<RectI, GlyphLoadingError>(GlyphLoadingError::NoSuchGlyph)
            },
    ;

    /// Draws a glyph that the engine has rendered onto a canvas, whatever the
    /// formats of the two: the image goes `bitmap.left()` columns to the
    /// right of the first column and `bitmap.top()` rows above the first row.
    /// For a glyph that the font does not have, the canvas stays as it was.
    fn rasterize_glyph(&self, canvas: &mut Canvas, glyph_id: u32, bitmap: &GlyphBitmap) -> (result:
        Result<(), GlyphLoadingError>)
        ensures
            result is Ok <==> glyph_id < self.loaded_glyph_count(),
            result matches Err(error) ==> error == GlyphLoadingError::NoSuchGlyph,
            result is Ok ==> final(canvas).is_blit_of(
                old(canvas),
                &bitmap.spec_image(),
                bitmap.spec_left() as int,
                -(bitmap.spec_top() as int),
            ),
            result is Err ==> *final(canvas) == *old(canvas),
    ;

    /// A handle by which the font can be opened again: one to the bytes that
    /// the font keeps, where it keeps them.
    fn handle(&self) -> (handle: Option<Handle>)
        ensures
            handle is Some <==> self.loaded_font_data() is Some,
            handle matches Some(h) ==> h matches Handle::Memory { bytes, font_index }
                && Some(bytes@) == self.loaded_font_data() && font_index
                == self.loaded_font_index(),
    ;

    /// The fonts to fall back on for a text, and the length in bytes of the
    /// part of the text that needs none: all of it, where no font is named.
    fn get_fallbacks(&self, text: &str, locale: &str) -> (result: FallbackResult)
        ensures
            result.valid_len <= text.len(),
            result.fonts@.len() == 0 ==> result.valid_len == text.len(),
    ;

    /// The contents of the table with the given tag.
    fn load_font_table(&self, table_tag: u32) -> (table: Option<Vec<u8>>)
        ensures
            bytes_view(table) == self.loaded_font_table(table_tag),
    ;
}

impl Loader for Font {
    type NativeFont = NativeFont;

    open spec fn valid_native_font(native: NativeFont) -> bool {
        native.wf()
    }

    open spec fn loaded_native_font(&self) -> NativeFont {
        self.native_handle()
    }

    open spec fn loaded_font_data(&self) -> Option<Seq<u8>> {
        self.data()
    }

    open spec fn loaded_font_index(&self) -> u32 {
        self.index()
    }

    open spec fn loaded_postscript_name(&self) -> Option<Seq<char>> {
        self.spec_postscript_name()
    }

    open spec fn loaded_full_name(&self) -> Seq<char> {
        self.spec_full_name()
    }

    open spec fn loaded_family_name(&self) -> Seq<char> {
        self.spec_family_name()
    }

    open spec fn loaded_is_monospace(&self) -> bool {
        self.native().is_fixed_width
    }

    open spec fn loaded_properties(&self) -> Properties {
        self.spec_properties()
    }

    open spec fn loaded_metrics(&self) -> Metrics {
        self.spec_metrics()
    }

    open spec fn loaded_glyph_count(&self) -> u32 {
        self.spec_glyph_count()
    }

    open spec fn loaded_glyph_for_char(&self, character: char) -> Option<u32> {
        self.native().spec_glyph_for_char(character)
    }

    open spec fn loaded_glyph_by_name(&self, name: Seq<char>) -> Option<u32> {
        self.native().spec_glyph_by_name(name)
    }

    open spec fn loaded_outline(&self, glyph_id: u32) -> Seq<PathSegment> {
        self.native().glyphs@[glyph_id as int].outline@
    }

    open spec fn loaded_typographic_bounds(&self, glyph_id: u32) -> RectI {
        self.native().glyphs@[glyph_id as int].bounds
    }

    open spec fn loaded_advance(&self, glyph_id: u32) -> Vector2I {
        self.native().glyphs@[glyph_id as int].advance
    }

    open spec fn loaded_origin(&self, glyph_id: u32) -> Vector2I {
        Vector2I::spec_zero()
    }

    open spec fn loaded_supports_hinting_options(
        hinting_options: HintingOptions,
        for_rasterization: bool,
    ) -> bool {
        Font::spec_supports_hinting_options(hinting_options, for_rasterization)
    }

    open spec fn loaded_font_table(&self, table_tag: u32) -> Option<Seq<u8>> {
        self.native().spec_table(table_tag)
    }

    fn from_bytes(font_data: Arc<Vec<u8>>, font_index: u32, native: Option<NativeFont>) -> (result:
        Result<Font, FontLoadingError>)
        ensures
            Font::spec_opened(font_data@, font_index, native, result),
    {
        Font::from_bytes(font_data, font_index, native)
    }

    fn from_native_font(native: NativeFont) -> (font: Font)
        ensures
            font.wf(),
            font.index() == 0,
    {
        Font::from_native_font(native)
    }

    fn analyze_bytes(font_data: Arc<Vec<u8>>) -> (result: Result<FileType, FontLoadingError>)
        ensures
            result == spec_analyze(font_data@),
    {
        Font::analyze_bytes(font_data)
    }

    fn native_font(&self) -> (native: NativeFont) {
        Font::native_font(self)
    }

    fn postscript_name(&self) -> (name: Option<String>) {
        self.postscript_name()
    }

    fn full_name(&self) -> (name: String) {
        self.full_name()
    }

    fn family_name(&self) -> (name: String) {
        self.family_name()
    }

    fn is_monospace(&self) -> (monospace: bool) {
        self.is_monospace()
    }

    fn properties(&self) -> (properties: Properties) {
        self.properties()
    }

    fn glyph_for_char(&self, character: char) -> (glyph_id: Option<u32>) {
        self.glyph_for_char(character)
    }

    fn glyph_by_name(&self, name: &str) -> (glyph_id: Option<u32>) {
        self.glyph_by_name(name)
    }

    fn glyph_count(&self) -> (count: u32) {
        self.glyph_count()
    }

    fn outline<S: OutlineSink>(&self, glyph_id: u32, hinting: HintingOptions, sink: &mut S) -> (result:
        Result<(), GlyphLoadingError>)
        ensures
            self.spec_outlined(
                glyph_id,
                hinting,
                old(sink).received(),
                final(sink).received(),
                result,
            ),
    {
        self.outline(glyph_id, hinting, sink)
    }

    fn typographic_bounds(&self, glyph_id: u32) -> (result: Result<RectI, GlyphLoadingError>) {
        self.typographic_bounds(glyph_id)
    }

    fn advance(&self, glyph_id: u32) -> (result: Result<Vector2I, GlyphLoadingError>) {
        self.advance(glyph_id)
    }

    fn origin(&self, glyph_id: u32) -> (result: Result<Vector2I, GlyphLoadingError>) {
        self.origin(glyph_id)
    }

    fn metrics(&self) -> (metrics: Metrics) {
        self.metrics()
    }

    fn copy_font_data(&self) -> (font_data: Option<Arc<Vec<u8>>>) {
        self.copy_font_data()
    }

    fn supports_hinting_options(&self, hinting_options: HintingOptions, for_rasterization: bool) -> (supported:
        bool) {
        self.supports_hinting_options(hinting_options, for_rasterization)
    }

    fn raster_bounds(&self, glyph_id: u32, bitmap: &GlyphBitmap) -> (result: Result<
        RectI,
        GlyphLoadingError,
    >) {
        self.raster_bounds(glyph_id, bitmap)
    }

    fn rasterize_glyph(&self, canvas: &mut Canvas, glyph_id: u32, bitmap: &GlyphBitmap) -> (result:
        Result<(), GlyphLoadingError>) {
        self.rasterize_glyph(canvas, glyph_id, bitmap)
    }

    fn handle(&self) -> (handle: Option<Handle>) {
        self.handle()
    }

    fn get_fallbacks(&self, text: &str, locale: &str) -> (result: FallbackResult)
        ensures
            result.fonts@.len() == 0,
            result.valid_len == text.len(),
    {
        self.get_fallbacks(text, locale)
    }

    fn load_font_table(&self, table_tag: u32) -> (table: Option<Vec<u8>>) {
        self.load_font_table(table_tag)
    }
}

} // verus!
