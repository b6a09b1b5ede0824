use font_kit::face::{
    BdfProperty, BdfValue, Face, FontFormat, SfntName, Type1Entry, PS_DICT_FULL_NAME,
    TT_NAME_ID_FULL_NAME,
};
use font_kit::font::{choose_name, device_font_name, Font};
use std::sync::Arc;

const PCF_FONT_POSTSCRIPT_NAME: &str = "Times-Roman";

fn pcf_file() -> Vec<u8> {
    vec![0x01, b'f', b'c', b'p', 0, 0, 0, 0]
}

fn face(format: FontFormat) -> Face {
    Face {
        format,
        postscript_name: None,
        family_name: None,
        is_fixed_width: false,
        is_italic: false,
        units_per_em: 0,
        ascender: 0,
        descender: 0,
        height: 0,
        underline_position: 0,
        underline_thickness: 0,
        type_1_values: Vec::new(),
        sfnt_names: Vec::new(),
        os2: None,
        bdf_properties: Vec::new(),
        charmap: Vec::new(),
        glyphs: Vec::new(),
        tables: Vec::new(),
    }
}

fn atom(name: &str, value: &str) -> BdfProperty {
    BdfProperty { name: name.to_string(), value: BdfValue::Atom(value.to_string()) }
}

/// The face of the 12 point Times Roman bitmap font, as an engine reports it.
fn times_roman_12() -> Face {
    let mut face = face(FontFormat::Pcf);
    face.family_name = Some("Times".to_string());
    face.bdf_properties = vec![
        atom("FOUNDRY", "Adobe"),
        atom("FAMILY_NAME", "Times"),
        atom("WEIGHT_NAME", "Medium"),
        atom("SLANT", "R"),
        BdfProperty { name: "PIXEL_SIZE".to_string(), value: BdfValue::Integer(12) },
        BdfProperty { name: "POINT_SIZE".to_string(), value: BdfValue::Integer(120) },
        BdfProperty { name: "RESOLUTION_X".to_string(), value: BdfValue::Cardinal(75) },
        atom("_DEC_DEVICE_FONTNAMES", "PS=Times-Roman"),
        atom("FULL_NAME", "Times Roman"),
    ];
    face
}

fn utf16_be(text: &str) -> Vec<u8> {
    let mut bytes = Vec::new();
    for unit in text.encode_utf16() {
        bytes.push((unit >> 8) as u8);
        bytes.push((unit & 0xff) as u8);
    }
    bytes
}

fn name_record(platform_id: u16, name_id: u16, string: Vec<u8>) -> SfntName {
    SfntName { platform_id, encoding_id: 0, language_id: 0, name_id, string }
}

#[test]
fn get_pcf_postscript_name() {
    let font = Font::from_bytes(Arc::new(pcf_file()), 0, Some(Arc::new(times_roman_12()))).unwrap();
    assert_eq!(font.postscript_name().unwrap(), PCF_FONT_POSTSCRIPT_NAME);
}

#[test]
fn postscript_name_of_the_engine_comes_first() {
    let mut face = times_roman_12();
    face.postscript_name = Some("Times-Engine".to_string());
    let font = Font::from_native_font(Arc::new(face));
    assert_eq!(font.postscript_name(), Some("Times-Engine".to_string()));
}

#[test]
fn empty_postscript_name_of_the_engine_counts_as_none() {
    let mut face = times_roman_12();
    face.postscript_name = Some(String::new());
    let font = Font::from_native_font(Arc::new(face));
    assert_eq!(font.postscript_name(), Some("Times-Roman".to_string()));
    let mut face = face_with_name(FontFormat::TrueType, None);
    face.postscript_name = Some(String::new());
    assert_eq!(Font::from_native_font(Arc::new(face)).postscript_name(), None);
}

fn face_with_name(format: FontFormat, name: Option<&str>) -> Face {
    let mut face = face(format);
    face.postscript_name = name.map(|n| n.to_string());
    face
}

#[test]
fn postscript_name_is_never_empty() {
    let with_name = Font::from_native_font(Arc::new(face_with_name(
        FontFormat::OpenType,
        Some("SourceSans-Regular"),
    )));
    assert!(!with_name.postscript_name().unwrap().is_empty());
    let mut bare_prefix = face(FontFormat::Pcf);
    bare_prefix.bdf_properties = vec![atom("_DEC_DEVICE_FONTNAMES", "PS=")];
    assert_eq!(Font::from_native_font(Arc::new(bare_prefix)).postscript_name(), None);
}

#[test]
fn bdf_font_takes_its_postscript_name_from_the_property() {
    let mut face = face(FontFormat::Bdf);
    face.bdf_properties = vec![atom("_DEC_DEVICE_FONTNAMES", "PS=Courier-Bold")];
    let font = Font::from_native_font(Arc::new(face));
    assert_eq!(font.postscript_name().unwrap(), "Courier-Bold");
}

#[test]
fn outline_font_ignores_the_device_font_names() {
    let mut face = face(FontFormat::TrueType);
    face.bdf_properties = vec![atom("_DEC_DEVICE_FONTNAMES", "PS=Times-Roman")];
    let font = Font::from_native_font(Arc::new(face));
    assert_eq!(font.postscript_name(), None);
}

#[test]
fn device_font_names_must_be_an_atom_with_the_prefix() {
    let mut number = face(FontFormat::Pcf);
    number.bdf_properties = vec![BdfProperty {
        name: "_DEC_DEVICE_FONTNAMES".to_string(),
        value: BdfValue::Integer(7),
    }];
    assert_eq!(Font::from_native_font(Arc::new(number)).postscript_name(), None);
    let mut empty = face(FontFormat::Pcf);
    empty.bdf_properties =
        vec![BdfProperty { name: "_DEC_DEVICE_FONTNAMES".to_string(), value: BdfValue::Empty }];
    assert_eq!(Font::from_native_font(Arc::new(empty)).postscript_name(), None);
    let mut other_prefix = face(FontFormat::Pcf);
    other_prefix.bdf_properties = vec![atom("_DEC_DEVICE_FONTNAMES", "XX=Times-Roman")];
    assert_eq!(Font::from_native_font(Arc::new(other_prefix)).postscript_name(), None);
    let mut missing = face(FontFormat::Pcf);
    missing.bdf_properties = vec![atom("FAMILY_NAME", "PS=Times-Roman")];
    assert_eq!(Font::from_native_font(Arc::new(missing)).postscript_name(), None);
}

#[test]
fn first_property_of_the_name_decides() {
    let mut face = face(FontFormat::Pcf);
    face.bdf_properties = vec![
        atom("_DEC_DEVICE_FONTNAMES", "none"),
        atom("_DEC_DEVICE_FONTNAMES", "PS=Times-Roman"),
    ];
    assert_eq!(Font::from_native_font(Arc::new(face)).postscript_name(), None);
}

#[test]
fn device_font_name_strips_the_prefix() {
    assert_eq!(device_font_name("PS=Times-Roman"), Some("Times-Roman".to_string()));
    assert_eq!(device_font_name("PS=\u{e9}t\u{e9}"), Some("\u{e9}t\u{e9}".to_string()));
    assert_eq!(device_font_name("PS="), None);
    assert_eq!(device_font_name("PS"), None);
    assert_eq!(device_font_name(""), None);
    assert_eq!(device_font_name("ps=Times-Roman"), None);
    assert_eq!(device_font_name(" PS=Times-Roman"), None);
}

#[test]
fn family_name_defaults_to_empty() {
    let font = Font::from_native_font(Arc::new(face(FontFormat::TrueType)));
    assert_eq!(font.family_name(), "");
    assert_eq!(Font::from_native_font(Arc::new(times_roman_12())).family_name(), "Times");
}

#[test]
fn full_name_comes_from_the_type_1_dictionary() {
    let mut face = face(FontFormat::Type1);
    face.family_name = Some("Utopia".to_string());
    face.type_1_values = vec![
        Type1Entry { key: 37, value: "001.001".to_string() },
        Type1Entry { key: PS_DICT_FULL_NAME, value: "Utopia Regular".to_string() },
        Type1Entry { key: PS_DICT_FULL_NAME, value: "Second".to_string() },
    ];
    face.sfnt_names = vec![name_record(0, TT_NAME_ID_FULL_NAME, utf16_be("From SFNT"))];
    let font = Font::from_native_font(Arc::new(face));
    assert_eq!(font.full_name(), "Utopia Regular");
    assert_eq!(font.get_type_1_or_sfnt_name(37, 999), Some("001.001".to_string()));
}

#[test]
fn full_name_comes_from_the_sfnt_names() {
    let mut face = face(FontFormat::TrueType);
    face.family_name = Some("DejaVu Sans".to_string());
    face.sfnt_names = vec![
        name_record(0, 1, utf16_be("DejaVu Sans")),
        name_record(3, TT_NAME_ID_FULL_NAME, utf16_be("Windows name")),
        name_record(0, TT_NAME_ID_FULL_NAME, vec![0x00, 0x44, 0x00]),
        name_record(0, TT_NAME_ID_FULL_NAME, vec![0xd8, 0x00, 0x00, 0x41]),
        name_record(0, TT_NAME_ID_FULL_NAME, utf16_be("DejaVu Sans Bold")),
        name_record(0, TT_NAME_ID_FULL_NAME, utf16_be("Later")),
    ];
    let font = Font::from_native_font(Arc::new(face));
    assert_eq!(font.full_name(), "DejaVu Sans Bold");
    assert_eq!(font.get_type_1_or_sfnt_name(PS_DICT_FULL_NAME, 1), Some("DejaVu Sans".to_string()));
    assert_eq!(font.get_type_1_or_sfnt_name(PS_DICT_FULL_NAME, 2), None);
}

#[test]
fn full_name_decodes_big_endian_utf16() {
    let mut face = face(FontFormat::OpenType);
    face.sfnt_names = vec![name_record(
        0,
        TT_NAME_ID_FULL_NAME,
        vec![0x00, 0x41, 0x01, 0x00, 0x30, 0x42, 0xd8, 0x3d, 0xde, 0x00],
    )];
    let font = Font::from_native_font(Arc::new(face));
    assert_eq!(font.full_name(), "A\u{100}\u{3042}\u{1f600}");
}

#[test]
fn full_name_falls_back_on_the_family_name() {
    let mut face = face(FontFormat::TrueType);
    face.family_name = Some("Inconsolata".to_string());
    face.sfnt_names = vec![name_record(1, TT_NAME_ID_FULL_NAME, b"Inconsolata Regular".to_vec())];
    let font = Font::from_native_font(Arc::new(face));
    assert_eq!(font.full_name(), "Inconsolata");
    let nameless = Font::from_native_font(Arc::new(self::face(FontFormat::TrueType)));
    assert_eq!(nameless.full_name(), "");
}

#[test]
fn choose_name_prefers_the_type_1_value() {
    let texts = vec![None, Some("From SFNT".to_string()), Some("Later".to_string())];
    assert_eq!(choose_name(Some("Type 1".to_string()), &texts), Some("Type 1".to_string()));
    assert_eq!(choose_name(Some(String::new()), &texts), Some(String::new()));
    assert_eq!(choose_name(Some("Type 1".to_string()), &Vec::new()), Some("Type 1".to_string()));
}

#[test]
fn choose_name_takes_the_first_text_that_was_decoded() {
    let texts = vec![None, None, Some("From SFNT".to_string()), None, Some("Later".to_string())];
    assert_eq!(choose_name(None, &texts), Some("From SFNT".to_string()));
    assert_eq!(choose_name(None, &vec![Some("Only".to_string())]), Some("Only".to_string()));
    assert_eq!(choose_name(None, &vec![None, None]), None);
    assert_eq!(choose_name(None, &Vec::new()), None);
}
