use font_kit::error::FontLoadingError;
use font_kit::face::{Face, FontFormat, Glyph};
use font_kit::file_type::{analyze, detect_format, format_agrees, matches_at, FileType};
use font_kit::font::Font;
use font_kit::geometry::{RectI, Vector2I};
use font_kit::handle::Handle;
use std::sync::Arc;

fn face(format: FontFormat, glyphs: usize) -> Face {
    let mut list = Vec::new();
    for _ in 0..glyphs {
        list.push(Glyph {
            name: String::new(),
            advance: Vector2I::new(0, 0),
            bounds: RectI::new(Vector2I::new(0, 0), Vector2I::new(0, 0)),
            outline: Vec::new(),
        });
    }
    Face {
        format,
        postscript_name: Some("Test-Regular".to_string()),
        family_name: Some("Test".to_string()),
        is_fixed_width: false,
        is_italic: false,
        units_per_em: 1000,
        ascender: 800,
        descender: -200,
        height: 1200,
        underline_position: -100,
        underline_thickness: 50,
        type_1_values: Vec::new(),
        sfnt_names: Vec::new(),
        os2: None,
        bdf_properties: Vec::new(),
        charmap: Vec::new(),
        glyphs: list,
        tables: Vec::new(),
    }
}

fn collection(count: u32) -> Vec<u8> {
    let mut data = b"ttcf".to_vec();
    data.extend_from_slice(&[0, 2, 0, 0]);
    data.extend_from_slice(&count.to_be_bytes());
    data.extend_from_slice(&[0, 0, 0, 0x20]);
    data
}

fn truetype() -> Vec<u8> {
    vec![0x00, 0x01, 0x00, 0x00, 0x00, 0x0a, 0x00, 0x80]
}

#[test]
fn signatures_of_single_fonts_are_recognized() {
    assert_eq!(analyze(&truetype()), Ok(FileType::Single));
    assert_eq!(analyze(&b"true....".to_vec()), Ok(FileType::Single));
    assert_eq!(analyze(&b"OTTO\x00\x0b".to_vec()), Ok(FileType::Single));
    assert_eq!(analyze(&b"typ1".to_vec()), Ok(FileType::Single));
    assert_eq!(analyze(&b"\x01fcp\x08\x00\x00\x00".to_vec()), Ok(FileType::Single));
    assert_eq!(analyze(&b"STARTFONT 2.1\n".to_vec()), Ok(FileType::Single));
    assert_eq!(analyze(&b"%!PS-AdobeFont-1.0: Utopia 001.001\n".to_vec()), Ok(FileType::Single));
    assert_eq!(analyze(&b"%!FontType1-1.0: Utopia\n".to_vec()), Ok(FileType::Single));
    assert_eq!(
        analyze(&b"\x80\x01\x10\x02\x00\x00%!PS-AdobeFont-1.0".to_vec()),
        Ok(FileType::Single)
    );
    assert_eq!(analyze(&b"\x80\x01\x10\x02\x00\x00%!FontType1".to_vec()), Ok(FileType::Single));
}

#[test]
fn formats_are_told_apart_by_their_signatures() {
    assert_eq!(detect_format(&truetype()), Some(FontFormat::TrueType));
    assert_eq!(detect_format(&b"true".to_vec()), Some(FontFormat::TrueType));
    assert_eq!(detect_format(&b"OTTO".to_vec()), Some(FontFormat::OpenType));
    assert_eq!(detect_format(&b"typ1".to_vec()), Some(FontFormat::Type1));
    assert_eq!(detect_format(&b"\x01fcp".to_vec()), Some(FontFormat::Pcf));
    assert_eq!(detect_format(&b"STARTFONT".to_vec()), Some(FontFormat::Bdf));
    assert_eq!(detect_format(&b"%!PS-AdobeFont".to_vec()), Some(FontFormat::Type1));
    assert_eq!(detect_format(&b"%!FontType".to_vec()), Some(FontFormat::Type1));
    assert_eq!(detect_format(&b"\x80\x01....%!FontType".to_vec()), Some(FontFormat::Type1));
    assert_eq!(detect_format(&b"\x80\x01...%!FontType".to_vec()), None);
    assert_eq!(detect_format(&b"\x80\x02....%!FontType".to_vec()), None);
    assert_eq!(detect_format(&b"ttcf".to_vec()), None);
    assert_eq!(detect_format(&b"STARTFON".to_vec()), None);
    assert_eq!(detect_format(&b"%!PS-Adobe-3.0".to_vec()), None);
    assert_eq!(detect_format(&vec![0x00, 0x01, 0x00]), None);
    assert_eq!(detect_format(&Vec::new()), None);
}

#[test]
fn collection_reports_the_number_of_its_fonts() {
    assert_eq!(analyze(&collection(2)), Ok(FileType::Collection(2)));
    assert_eq!(analyze(&collection(0x0102_0304)), Ok(FileType::Collection(0x0102_0304)));
    assert_eq!(analyze(&collection(u32::MAX)), Ok(FileType::Collection(u32::MAX)));
    assert_eq!(analyze(&collection(256)), Ok(FileType::Collection(256)));
}

#[test]
fn collection_of_one_font_is_a_single_font() {
    assert_eq!(analyze(&collection(1)), Ok(FileType::Single));
}

#[test]
fn collection_without_fonts_or_count_does_not_parse() {
    assert_eq!(analyze(&collection(0)), Err(FontLoadingError::Parse));
    assert_eq!(analyze(&b"ttcf".to_vec()), Err(FontLoadingError::Parse));
    assert_eq!(analyze(&collection(3)[..11].to_vec()), Err(FontLoadingError::Parse));
    assert_eq!(analyze(&collection(3)[..12].to_vec()), Ok(FileType::Collection(3)));
}

#[test]
fn analyze_bytes_on_data_that_is_no_font_is_unknown_format() {
    assert_eq!(Font::analyze_bytes(Arc::new(Vec::new())), Err(FontLoadingError::UnknownFormat));
    assert_eq!(
        Font::analyze_bytes(Arc::new(b"\x89PNG\r\n\x1a\n".to_vec())),
        Err(FontLoadingError::UnknownFormat)
    );
    assert_eq!(
        Font::analyze_bytes(Arc::new(b"hello, world".to_vec())),
        Err(FontLoadingError::UnknownFormat)
    );
    assert_eq!(
        Font::analyze_bytes(Arc::new(vec![0x00, 0x01, 0x00])),
        Err(FontLoadingError::UnknownFormat)
    );
    assert_eq!(Font::analyze_bytes(Arc::new(b"ttc".to_vec())), Err(FontLoadingError::UnknownFormat));
    assert_eq!(
        Font::analyze_bytes(Arc::new(b" OTTO".to_vec())),
        Err(FontLoadingError::UnknownFormat)
    );
}

#[test]
fn analyze_bytes_agrees_with_analyze() {
    assert_eq!(Font::analyze_bytes(Arc::new(truetype())), Ok(FileType::Single));
    assert_eq!(Font::analyze_bytes(Arc::new(collection(4))), Ok(FileType::Collection(4)));
    assert_eq!(Font::analyze_bytes(Arc::new(collection(0))), Err(FontLoadingError::Parse));
}

#[test]
fn face_count_of_a_file_type() {
    assert_eq!(FileType::Single.face_count(), 1);
    assert_eq!(FileType::Collection(7).face_count(), 7);
    assert_eq!(FileType::Collection(0).face_count(), 0);
}

#[test]
fn matches_at_finds_a_pattern_in_its_place_only() {
    let data = b"abcdef".to_vec();
    assert!(matches_at(&data, 0, b"abc"));
    assert!(matches_at(&data, 3, b"def"));
    assert!(matches_at(&data, 6, b""));
    assert!(matches_at(&data, 0, b""));
    assert!(!matches_at(&data, 1, b"abc"));
    assert!(!matches_at(&data, 4, b"efg"));
    assert!(!matches_at(&data, 4, b"def"));
    assert!(!matches_at(&data, 7, b""));
    assert!(!matches_at(&data, usize::MAX, b"a"));
    assert!(!matches_at(&data, 0, b"abcdefg"));
}

#[test]
fn from_bytes_opens_a_single_font_at_index_0() {
    let data = Arc::new(truetype());
    let font = Font::from_bytes(data.clone(), 0, Some(Arc::new(face(FontFormat::TrueType, 3))))
        .unwrap();
    assert_eq!(font.glyph_count(), 3);
    assert_eq!(font.postscript_name(), Some("Test-Regular".to_string()));
    assert!(Arc::ptr_eq(&font.copy_font_data().unwrap(), &data));
}

#[test]
fn from_bytes_rejects_data_that_is_no_font() {
    let native = Some(Arc::new(face(FontFormat::TrueType, 1)));
    assert_eq!(
        Font::from_bytes(Arc::new(b"not a font".to_vec()), 0, native.clone()).unwrap_err(),
        FontLoadingError::UnknownFormat
    );
    assert_eq!(
        Font::from_bytes(Arc::new(Vec::new()), 0, native).unwrap_err(),
        FontLoadingError::UnknownFormat
    );
    assert_eq!(
        Font::from_bytes(Arc::new(Vec::new()), 5, None).unwrap_err(),
        FontLoadingError::UnknownFormat
    );
}

#[test]
fn from_bytes_rejects_an_index_beyond_the_fonts_of_the_file() {
    let native = Some(Arc::new(face(FontFormat::TrueType, 1)));
    assert!(Font::from_bytes(Arc::new(truetype()), 0, native.clone()).is_ok());
    assert_eq!(
        Font::from_bytes(Arc::new(truetype()), 1, native.clone()).unwrap_err(),
        FontLoadingError::NoSuchFontInCollection
    );
    assert_eq!(
        Font::from_bytes(Arc::new(collection(3)), 3, native.clone()).unwrap_err(),
        FontLoadingError::NoSuchFontInCollection
    );
    assert_eq!(
        Font::from_bytes(Arc::new(collection(3)), u32::MAX, None).unwrap_err(),
        FontLoadingError::NoSuchFontInCollection
    );
    assert!(Font::from_bytes(Arc::new(collection(3)), 2, native.clone()).is_ok());
    assert!(Font::from_bytes(Arc::new(collection(3)), 0, native).is_ok());
}

#[test]
fn from_bytes_without_a_face_does_not_parse() {
    assert_eq!(
        Font::from_bytes(Arc::new(truetype()), 0, None).unwrap_err(),
        FontLoadingError::Parse
    );
    assert_eq!(
        Font::from_bytes(Arc::new(collection(0)), 0, Some(Arc::new(face(FontFormat::TrueType, 1))))
            .unwrap_err(),
        FontLoadingError::Parse
    );
}

#[test]
fn from_bytes_rejects_a_face_of_another_format() {
    let pcf = Arc::new(b"\x01fcp\x00\x00\x00\x00".to_vec());
    assert!(Font::from_bytes(pcf.clone(), 0, Some(Arc::new(face(FontFormat::Pcf, 1)))).is_ok());
    for format in [FontFormat::TrueType, FontFormat::OpenType, FontFormat::Type1, FontFormat::Bdf] {
        assert_eq!(
            Font::from_bytes(pcf.clone(), 0, Some(Arc::new(face(format, 1)))).unwrap_err(),
            FontLoadingError::Parse
        );
    }
    assert_eq!(
        Font::from_bytes(Arc::new(truetype()), 0, Some(Arc::new(face(FontFormat::OpenType, 1))))
            .unwrap_err(),
        FontLoadingError::Parse
    );
    assert!(Font::from_bytes(
        Arc::new(b"%!PS-AdobeFont-1.0".to_vec()),
        0,
        Some(Arc::new(face(FontFormat::Type1, 1)))
    )
    .is_ok());
    assert!(Font::from_bytes(
        Arc::new(b"STARTFONT 2.1".to_vec()),
        0,
        Some(Arc::new(face(FontFormat::Bdf, 1)))
    )
    .is_ok());
}

#[test]
fn fonts_of_a_collection_have_outlines_of_either_kind() {
    for format in [FontFormat::TrueType, FontFormat::OpenType] {
        assert!(Font::from_bytes(Arc::new(collection(2)), 1, Some(Arc::new(face(format, 1))))
            .is_ok());
    }
    for format in [FontFormat::Type1, FontFormat::Bdf, FontFormat::Pcf] {
        assert_eq!(
            Font::from_bytes(Arc::new(collection(2)), 1, Some(Arc::new(face(format, 1))))
                .unwrap_err(),
            FontLoadingError::Parse
        );
    }
}

#[test]
fn format_agrees_with_the_signature_of_the_data() {
    assert!(format_agrees(&truetype(), FontFormat::TrueType));
    assert!(!format_agrees(&truetype(), FontFormat::OpenType));
    assert!(format_agrees(&b"OTTO".to_vec(), FontFormat::OpenType));
    assert!(format_agrees(&b"typ1".to_vec(), FontFormat::Type1));
    assert!(format_agrees(&collection(0), FontFormat::TrueType));
    assert!(format_agrees(&b"ttcf".to_vec(), FontFormat::OpenType));
    assert!(!format_agrees(&b"ttcf".to_vec(), FontFormat::Pcf));
    assert!(!format_agrees(&Vec::new(), FontFormat::TrueType));
    assert!(!format_agrees(&b"plain text".to_vec(), FontFormat::Bdf));
}

#[test]
fn from_handle_opens_the_bytes_of_a_handle_to_bytes() {
    let native = Some(Arc::new(face(FontFormat::OpenType, 2)));
    let memory = Handle::from_memory(Arc::new(collection(2)), 1);
    let font = Font::from_handle(&memory, None, native.clone()).unwrap();
    assert_eq!(font.glyph_count(), 2);
    assert!(font.handle().unwrap() == memory);
    assert_eq!(*font.copy_font_data().unwrap(), collection(2));
    let other = Some(Arc::new(b"not a font".to_vec()));
    assert!(Font::from_handle(&memory, other, native.clone()).is_ok());
    assert_eq!(
        Font::from_handle(&Handle::from_memory(Arc::new(collection(2)), 2), None, native.clone())
            .unwrap_err(),
        FontLoadingError::NoSuchFontInCollection
    );
    assert_eq!(
        Font::from_handle(&Handle::from_memory(Arc::new(Vec::new()), 0), None, native)
            .unwrap_err(),
        FontLoadingError::UnknownFormat
    );
}

#[test]
fn from_handle_opens_the_contents_of_a_handle_to_a_file() {
    let native = Some(Arc::new(face(FontFormat::TrueType, 7)));
    let path = Handle::from_path("fonts/a.ttf".to_string(), 0);
    let contents = Arc::new(truetype());
    let font = Font::from_handle(&path, Some(contents.clone()), native.clone()).unwrap();
    assert_eq!(font.glyph_count(), 7);
    assert_eq!(font.postscript_name(), Some("Test-Regular".to_string()));
    assert!(Arc::ptr_eq(&font.copy_font_data().unwrap(), &contents));
    assert!(font.handle().unwrap() == Handle::from_memory(contents.clone(), 0));
    assert!(path == Handle::from_path("fonts/a.ttf".to_string(), 0));
    let second = Font::from_handle(&path, Some(contents.clone()), native.clone()).unwrap();
    drop(font);
    assert_eq!(second.glyph_count(), 7);
    assert_eq!(second.postscript_name(), Some("Test-Regular".to_string()));
    let in_collection = Handle::from_path("fonts/b.ttc".to_string(), 2);
    let font =
        Font::from_handle(&in_collection, Some(Arc::new(collection(3))), native).unwrap();
    assert!(font.handle().unwrap() == Handle::from_memory(Arc::new(collection(3)), 2));
}

#[test]
fn from_handle_on_a_file_agrees_with_from_bytes_on_its_contents() {
    let faces = [
        None,
        Some(Arc::new(face(FontFormat::TrueType, 1))),
        Some(Arc::new(face(FontFormat::Pcf, 1))),
    ];
    let files = [
        truetype(),
        collection(2),
        collection(0),
        b"\x01fcp\x00\x00\x00\x00".to_vec(),
        b"not a font".to_vec(),
        Vec::new(),
    ];
    for native in faces.iter() {
        for file in files.iter() {
            for font_index in 0..3 {
                let handle = Handle::from_path("fonts/any".to_string(), font_index);
                let by_handle =
                    Font::from_handle(&handle, Some(Arc::new(file.clone())), native.clone());
                let by_bytes = Font::from_bytes(Arc::new(file.clone()), font_index, native.clone());
                match (by_handle, by_bytes) {
                    (Ok(one), Ok(other)) => {
                        assert_eq!(one.postscript_name(), other.postscript_name());
                        assert_eq!(one.glyph_count(), other.glyph_count());
                        assert_eq!(one.copy_font_data(), other.copy_font_data());
                    }
                    (Err(one), Err(other)) => assert_eq!(one, other),
                    _ => panic!("a handle to a file and its contents opened differently"),
                }
            }
        }
    }
}

#[test]
fn from_handle_on_a_file_that_was_not_read_is_an_io_error() {
    let native = Some(Arc::new(face(FontFormat::TrueType, 1)));
    let path = Handle::from_path("fonts/missing.ttf".to_string(), 0);
    assert_eq!(Font::from_handle(&path, None, native).unwrap_err(), FontLoadingError::Io);
    assert_eq!(Font::from_handle(&path, None, None).unwrap_err(), FontLoadingError::Io);
    assert_eq!(
        Font::from_handle(&path, Some(Arc::new(truetype())), None).unwrap_err(),
        FontLoadingError::Parse
    );
    assert_eq!(
        Font::from_handle(&path, Some(Arc::new(Vec::new())), None).unwrap_err(),
        FontLoadingError::UnknownFormat
    );
}

#[test]
fn from_native_font_keeps_no_bytes() {
    let native = Arc::new(face(FontFormat::Type1, 4));
    assert!(native.is_valid());
    let font = Font::from_native_font(native.clone());
    assert!(font.copy_font_data().is_none());
    assert!(font.handle().is_none());
    assert_eq!(font.glyph_count(), 4);
    assert!(Arc::ptr_eq(&font.native_font(), &native));
}

#[test]
fn copy_font_data_opens_the_same_font_again() {
    let native = Arc::new(face(FontFormat::OpenType, 5));
    let font = Font::from_bytes(Arc::new(collection(4)), 3, Some(native.clone())).unwrap();
    let data = font.copy_font_data().unwrap();
    assert_eq!(*data, collection(4));
    let handle = font.handle().unwrap();
    let reopened = Font::from_bytes(data, handle.font_index(), Some(font.native_font())).unwrap();
    assert_eq!(reopened.postscript_name(), font.postscript_name());
    assert_eq!(reopened.glyph_count(), font.glyph_count());
    assert_eq!(reopened.metrics(), font.metrics());
    assert_eq!(reopened.copy_font_data(), font.copy_font_data());
}

#[test]
fn clone_outlives_the_font_it_was_made_of() {
    let font = Font::from_bytes(
        Arc::new(truetype()),
        0,
        Some(Arc::new(face(FontFormat::TrueType, 6))),
    )
    .unwrap();
    let metrics = font.metrics();
    let clone = font.clone();
    drop(font);
    assert_eq!(clone.glyph_count(), 6);
    assert_eq!(clone.metrics(), metrics);
    assert_eq!(clone.postscript_name(), Some("Test-Regular".to_string()));
    assert_eq!(clone.advance(5), Ok(Vector2I::new(0, 0)));
    assert_eq!(*clone.copy_font_data().unwrap(), truetype());
}

#[test]
fn clone_shares_face_and_bytes() {
    let data = Arc::new(truetype());
    let native = Arc::new(face(FontFormat::TrueType, 1));
    let font = Font::from_bytes(data.clone(), 0, Some(native.clone())).unwrap();
    let clone = font.clone();
    assert!(Arc::ptr_eq(&clone.native_font(), &native));
    assert!(Arc::ptr_eq(&clone.copy_font_data().unwrap(), &data));
    assert_eq!(Arc::strong_count(&native), 3);
    drop(font);
    drop(clone);
    assert_eq!(Arc::strong_count(&native), 1);
    assert_eq!(Arc::strong_count(&data), 1);
}

#[test]
fn loading_errors_describe_themselves() {
    assert_eq!(FontLoadingError::UnknownFormat.message(), "unknown format");
    assert_eq!(
        FontLoadingError::NoSuchFontInCollection.message(),
        "no such font in the collection"
    );
    assert_eq!(FontLoadingError::Parse.message(), "parse error");
    assert_eq!(FontLoadingError::Io.message(), "I/O error");
    assert_eq!(FontLoadingError::NotImplemented.message(), "not implemented");
}
