use font_kit::canvas::{Canvas, Format, GlyphBitmap};
use font_kit::error::{FontLoadingError, GlyphLoadingError};
use font_kit::face::{CharMapping, Face, FontFormat, Glyph};
use font_kit::file_type::FileType;
use font_kit::font::Font;
use font_kit::geometry::{RectI, Vector2I};
use font_kit::hinting::HintingOptions;
use font_kit::loader::Loader;
use font_kit::outline::{OutlineRecorder, PathSegment};
use std::sync::Arc;

fn face() -> Face {
    Face {
        format: FontFormat::OpenType,
        postscript_name: Some("Loader-Test".to_string()),
        family_name: Some("Loader".to_string()),
        is_fixed_width: true,
        is_italic: false,
        units_per_em: 1000,
        ascender: 750,
        descender: -250,
        height: 1000,
        underline_position: -75,
        underline_thickness: 50,
        type_1_values: Vec::new(),
        sfnt_names: Vec::new(),
        os2: None,
        bdf_properties: Vec::new(),
        charmap: vec![CharMapping { character: 'x', glyph_id: 1 }],
        glyphs: vec![
            Glyph {
                name: ".notdef".to_string(),
                advance: Vector2I::new(500, 0),
                bounds: RectI::new(Vector2I::new(0, 0), Vector2I::new(0, 0)),
                outline: Vec::new(),
            },
            Glyph {
                name: "x".to_string(),
                advance: Vector2I::new(520, 0),
                bounds: RectI::new(Vector2I::new(20, 0), Vector2I::new(480, 450)),
                outline: vec![
                    PathSegment::MoveTo(Vector2I::new(20, 0)),
                    PathSegment::LineTo(Vector2I::new(500, 450)),
                    PathSegment::Close,
                ],
            },
        ],
        tables: Vec::new(),
    }
}

fn open<L: Loader>(native: L::NativeFont) -> Result<L, FontLoadingError> {
    L::from_bytes(Arc::new(b"OTTO\x00\x09".to_vec()), 0, Some(native))
}

fn widths<L: Loader>(loader: &L) -> Vec<Result<i32, GlyphLoadingError>> {
    (0..loader.glyph_count() + 2).map(|id| loader.advance(id).map(|advance| advance.x)).collect()
}

#[test]
fn font_is_a_loader() {
    let font: Font = open(Arc::new(face())).unwrap();
    assert_eq!(
        widths(&font),
        vec![
            Ok(500),
            Ok(520),
            Err(GlyphLoadingError::NoSuchGlyph),
            Err(GlyphLoadingError::NoSuchGlyph)
        ]
    );
    assert_eq!(Loader::postscript_name(&font), Some("Loader-Test".to_string()));
    assert_eq!(Loader::full_name(&font), "Loader");
    assert_eq!(Loader::family_name(&font), "Loader");
    assert!(Loader::is_monospace(&font));
    assert_eq!(Loader::properties(&font), font.properties());
    assert_eq!(Loader::metrics(&font), font.metrics());
    assert_eq!(Loader::glyph_for_char(&font, 'x'), Some(1));
    assert_eq!(Loader::glyph_by_name(&font, "x"), Some(1));
    assert_eq!(Loader::origin(&font, 1), Ok(Vector2I::new(0, 0)));
    assert_eq!(Loader::origin(&font, 2), Err(GlyphLoadingError::NoSuchGlyph));
    assert_eq!(
        Loader::typographic_bounds(&font, 1),
        Ok(RectI::new(Vector2I::new(20, 0), Vector2I::new(480, 450)))
    );
    assert_eq!(Loader::load_font_table(&font, 0x4f53_2f32), None);
    assert_eq!(Loader::get_fallbacks(&font, "xyz", "en").valid_len, 3);
    assert!(Loader::supports_hinting_options(&font, HintingOptions::Unhinted, false));
    assert!(Arc::ptr_eq(&Loader::native_font(&font), &font.native_font()));
}

#[test]
fn loader_opens_and_analyzes_bytes() {
    assert_eq!(
        <Font as Loader>::analyze_bytes(Arc::new(b"OTTO".to_vec())),
        Ok(FileType::Single)
    );
    assert_eq!(
        <Font as Loader>::analyze_bytes(Arc::new(b"GIF89a".to_vec())),
        Err(FontLoadingError::UnknownFormat)
    );
    assert_eq!(
        <Font as Loader>::from_bytes(Arc::new(b"GIF89a".to_vec()), 0, Some(Arc::new(face())))
            .unwrap_err(),
        FontLoadingError::UnknownFormat
    );
    assert_eq!(
        <Font as Loader>::from_bytes(Arc::new(b"OTTO".to_vec()), 0, None).unwrap_err(),
        FontLoadingError::Parse
    );
    let font: Font = open(Arc::new(face())).unwrap();
    assert_eq!(*Loader::copy_font_data(&font).unwrap(), b"OTTO\x00\x09".to_vec());
    assert!(Loader::handle(&font).is_some());
    let bare = <Font as Loader>::from_native_font(Arc::new(face()));
    assert!(Loader::copy_font_data(&bare).is_none());
    assert!(Loader::handle(&bare).is_none());
}

#[test]
fn loader_draws_and_outlines_glyphs() {
    let font: Font = open(Arc::new(face())).unwrap();
    let mut recorder = OutlineRecorder::new();
    assert_eq!(Loader::outline(&font, 1, HintingOptions::Unhinted, &mut recorder), Ok(()));
    assert_eq!(recorder.segments.len(), 3);
    assert_eq!(
        Loader::outline(&font, 2, HintingOptions::Unhinted, &mut recorder),
        Err(GlyphLoadingError::NoSuchGlyph)
    );
    assert_eq!(recorder.segments.len(), 3);
    let image = Canvas::from_pixels(vec![0b1000_0000], 1, 1, 1, Format::Bilevel).unwrap();
    let bitmap = GlyphBitmap::new(1, 0, image).unwrap();
    let mut canvas = Canvas::new(2, 1, Format::A8).unwrap();
    assert_eq!(Loader::rasterize_glyph(&font, &mut canvas, 1, &bitmap), Ok(()));
    assert_eq!(canvas.pixels(), &vec![0, 255]);
    assert_eq!(
        Loader::raster_bounds(&font, 1, &bitmap),
        Ok(RectI::new(Vector2I::new(1, 0), Vector2I::new(1, 1)))
    );
    assert_eq!(Loader::raster_bounds(&font, 2, &bitmap), Err(GlyphLoadingError::NoSuchGlyph));
}
