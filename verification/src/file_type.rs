//! What kind of font file a blob of bytes is.

use crate::encoding::{be_u32, spec_be_u32};
use crate::error::FontLoadingError;
use crate::face::FontFormat;
use vstd::prelude::*;
use vstd::slice::slice_subrange;

verus! {

/// Whether a file holds one font or a collection of several.
#[derive(Clone, Copy, Debug, PartialEq, Eq, Structural)]
pub enum FileType {
    /// The file holds a single font.
    Single,
    /// The file holds a collection of this many fonts.
    Collection(u32),
}

impl FileType {
    /// The number of faces that a file of this type holds.
    pub open spec fn spec_face_count(&self) -> u32 {
        match self {
            FileType::Single => 1,
            FileType::Collection(count) => *count,
        }
    }

    /// The number of faces that a file of this type holds; valid font
    /// indices are those below it.
    #[verifier::when_used_as_spec(spec_face_count)]
    pub fn face_count(&self) -> (count: u32)
        ensures
            count == self.spec_face_count(),
    {
        match self {
            FileType::Single => 1,
            FileType::Collection(count) => *count,
        }
    }
}

/// Whether `pattern` stands in `data` at `offset`.
pub open spec fn spec_matches_at(data: Seq<u8>, offset: int, pattern: Seq<u8>) -> bool {
    &&& 0 <= offset
    &&& offset + pattern.len() <= data.len()
    &&& data.subrange(offset, offset + pattern.len()) == pattern
}

/// The first bytes of an SFNT font with TrueType outlines.
pub open spec fn signature_truetype() -> Seq<u8> {
    seq![0x00u8, 0x01u8, 0x00u8, 0x00u8]
}

/// The first bytes of an SFNT font with TrueType outlines, as Apple wrote
/// them: `true`.
pub open spec fn signature_truetype_apple() -> Seq<u8> {
    seq![0x74u8, 0x72u8, 0x75u8, 0x65u8]
}

/// The first bytes of an SFNT font with CFF outlines: `OTTO`.
pub open spec fn signature_opentype() -> Seq<u8> {
    seq![0x4fu8, 0x54u8, 0x54u8, 0x4fu8]
}

/// The first bytes of a Type 1 font in an SFNT container: `typ1`.
pub open spec fn signature_type1_sfnt() -> Seq<u8> {
    seq![0x74u8, 0x79u8, 0x70u8, 0x31u8]
}

/// The first bytes of a font collection: `ttcf`.
pub open spec fn signature_collection() -> Seq<u8> {
    seq![0x74u8, 0x74u8, 0x63u8, 0x66u8]
}

/// The first bytes of a PCF font.
pub open spec fn signature_pcf() -> Seq<u8> {
    seq![0x01u8, 0x66u8, 0x63u8, 0x70u8]
}

/// The first bytes of a BDF font: `STARTFONT`.
pub open spec fn signature_bdf() -> Seq<u8> {
    seq![0x53u8, 0x54u8, 0x41u8, 0x52u8, 0x54u8, 0x46u8, 0x4fu8, 0x4eu8, 0x54u8]
}

/// The first bytes of the text of a Type 1 font: `%!PS-AdobeFont`.
pub open spec fn signature_type1_adobe() -> Seq<u8> {
    seq![
        0x25u8,
        0x21u8,
        0x50u8,
        0x53u8,
        0x2du8,
        0x41u8,
        0x64u8,
        0x6fu8,
        0x62u8,
        0x65u8,
        0x46u8,
        0x6fu8,
        0x6eu8,
        0x74u8,
    ]
}

/// The first bytes of the text of a Type 1 font, in its other form:
/// `%!FontType`.
pub open spec fn signature_type1_plain() -> Seq<u8> {
    seq![0x25u8, 0x21u8, 0x46u8, 0x6fu8, 0x6eu8, 0x74u8, 0x54u8, 0x79u8, 0x70u8, 0x65u8]
}

/// Whether the text of a Type 1 font begins in `data` at `offset`.
pub open spec fn spec_type1_text_at(data: Seq<u8>, offset: int) -> bool {
    spec_matches_at(data, offset, signature_type1_adobe()) || spec_matches_at(
        data,
        offset,
        signature_type1_plain(),
    )
}

/// The format of a single font that begins with `data`, by its signature;
/// `None` where the first bytes are those of no supported format. A Type 1
/// font in binary form begins with a segment header of six bytes, 0x80 0x01
/// and a length, before its text.
pub open spec fn spec_detect_format(data: Seq<u8>) -> Option<FontFormat> {
    if spec_matches_at(data, 0, signature_truetype()) || spec_matches_at(
        data,
        0,
        signature_truetype_apple(),
    ) {
        Some(FontFormat::TrueType)
    } else if spec_matches_at(data, 0, signature_opentype()) {
        Some(FontFormat::OpenType)
    } else if spec_matches_at(data, 0, signature_type1_sfnt()) {
        Some(FontFormat::Type1)
    } else if spec_matches_at(data, 0, signature_pcf()) {
        Some(FontFormat::Pcf)
    } else if spec_matches_at(data, 0, signature_bdf()) {
        Some(FontFormat::Bdf)
    } else if spec_type1_text_at(data, 0) {
        Some(FontFormat::Type1)
    } else if spec_matches_at(data, 0, seq![0x80u8, 0x01u8]) && spec_type1_text_at(data, 6) {
        Some(FontFormat::Type1)
    } else {
        None
    }
}

/// Whether `data` begins like a supported font format.
pub open spec fn spec_recognized(data: Seq<u8>) -> bool {
    spec_matches_at(data, 0, signature_collection()) || spec_detect_format(data) is Some
}

/// The type of the file that begins with `data`, by its signature.
///
/// A collection says in the four bytes at offset 8 how many fonts it holds;
/// one that holds a single font counts as a single font. The error is
/// `Parse` for a collection that is cut off before that number or holds no
/// font, and `UnknownFormat` for data that begins like no supported format.
pub open spec fn spec_analyze(data: Seq<u8>) -> Result<FileType, FontLoadingError> {
    if spec_matches_at(data, 0, signature_collection()) {
        if data.len() < 12 {
            Err(FontLoadingError::Parse)
        } else {
            let count = spec_be_u32(data[8], data[9], data[10], data[11]);
            if count == 0 {
                Err(FontLoadingError::Parse)
            } else if count == 1 {
                Ok(FileType::Single)
            } else {
                Ok(FileType::Collection(count))
            }
        }
    } else if spec_detect_format(data) is Some {
        Ok(FileType::Single)
    } else {
        Err(FontLoadingError::UnknownFormat)
    }
}

/// Whether a face of the given format can have been read from the file that
/// begins with `data`: a single font has the format that its signature
/// stands for; the fonts of a collection have outlines of either kind that
/// an SFNT container holds.
pub open spec fn spec_format_agrees(data: Seq<u8>, format: FontFormat) -> bool {
    if spec_matches_at(data, 0, signature_collection()) {
        format == FontFormat::TrueType || format == FontFormat::OpenType
    } else {
        spec_detect_format(data) == Some(format)
    }
}

/// Whether `pattern` stands in `data` at `offset`.
pub fn matches_at(data: &Vec<u8>, offset: usize, pattern: &[u8]) -> (found: bool)
    ensures
        found == spec_matches_at(data@, offset as int, pattern@),
{
    if offset > data.len() || pattern.len() > data.len() - offset {
        return false;
    }
    let mut i: usize = 0;
    while i < pattern.len()
        invariant
            i <= pattern.len(),
            offset + pattern.len() <= data.len(),
            forall|j: int| 0 <= j < i ==> data@[offset + j] == pattern@[j],
        decreases pattern.len() - i,
    {
        if data[offset + i] != pattern[i] {
            assert(data@.subrange(offset as int, offset + pattern.len())[i as int]
                != pattern@[i as int]);
            return false;
        }
        i += 1;
    }
    assert(data@.subrange(offset as int, offset + pattern.len()) =~= pattern@);
    true
}

/// Whether the text of a Type 1 font begins in `data` at `offset`.
fn type1_text_at(data: &Vec<u8>, offset: usize) -> (found: bool)
    ensures
        found == spec_type1_text_at(data@, offset as int),
{
    let adobe: [u8; 14] = [
        0x25u8,
        0x21u8,
        0x50u8,
        0x53u8,
        0x2du8,
        0x41u8,
        0x64u8,
        0x6fu8,
        0x62u8,
        0x65u8,
        0x46u8,
        0x6fu8,
        0x6eu8,
        0x74u8,
    ];
    let plain: [u8; 10] = [0x25u8, 0x21u8, 0x46u8, 0x6fu8, 0x6eu8, 0x74u8, 0x54u8, 0x79u8, 0x70u8, 0x65u8];
    assert(adobe@ =~= signature_type1_adobe());
    assert(plain@ =~= signature_type1_plain());
    matches_at(data, offset, adobe.as_slice()) || matches_at(data, offset, plain.as_slice())
}

/// The format of the single font that begins with `data`, by its signature.
pub fn detect_format(data: &Vec<u8>) -> (format: Option<FontFormat>)
    ensures
        format == spec_detect_format(data@),
{
    let truetype: [u8; 4] = [0x00, 0x01, 0x00, 0x00];
    let truetype_apple: [u8; 4] = [0x74u8, 0x72u8, 0x75u8, 0x65u8];
    let opentype: [u8; 4] = [0x4fu8, 0x54u8, 0x54u8, 0x4fu8];
    let type1_sfnt: [u8; 4] = [0x74u8, 0x79u8, 0x70u8, 0x31u8];
    let pcf: [u8; 4] = [0x01, 0x66u8, 0x63u8, 0x70u8];
    let bdf: [u8; 9] = [0x53u8, 0x54u8, 0x41u8, 0x52u8, 0x54u8, 0x46u8, 0x4fu8, 0x4eu8, 0x54u8];
    let binary: [u8; 2] = [0x80, 0x01];
    assert(truetype@ =~= signature_truetype());
    assert(truetype_apple@ =~= signature_truetype_apple());
    assert(opentype@ =~= signature_opentype());
    assert(type1_sfnt@ =~= signature_type1_sfnt());
    assert(pcf@ =~= signature_pcf());
    assert(bdf@ =~= signature_bdf());
    assert(binary@ =~= seq![0x80u8, 0x01u8]);
    if matches_at(data, 0, truetype.as_slice()) || matches_at(data, 0, truetype_apple.as_slice()) {
        Some(FontFormat::TrueType)
    } else if matches_at(data, 0, opentype.as_slice()) {
        Some(FontFormat::OpenType)
    } else if matches_at(data, 0, type1_sfnt.as_slice()) {
        Some(FontFormat::Type1)
    } else if matches_at(data, 0, pcf.as_slice()) {
        Some(FontFormat::Pcf)
    } else if matches_at(data, 0, bdf.as_slice()) {
        Some(FontFormat::Bdf)
    } else if type1_text_at(data, 0) {
        Some(FontFormat::Type1)
    } else if matches_at(data, 0, binary.as_slice()) && type1_text_at(data, 6) {
        Some(FontFormat::Type1)
    } else {
        None
    }
}

/// The type of the file that begins with `data`, by its signature: nothing
/// beyond the signature and a collection's count is read.
pub fn analyze(data: &Vec<u8>) -> (result: Result<FileType, FontLoadingError>)
    ensures
        result == spec_analyze(data@),
        !spec_recognized(data@) ==> result == Err::<FileType, FontLoadingError>(
            FontLoadingError::UnknownFormat,
        ),
        result is Ok ==> spec_recognized(data@),
{
    let collection: [u8; 4] = [0x74u8, 0x74u8, 0x63u8, 0x66u8];
    assert(collection@ =~= signature_collection());
    if matches_at(data, 0, collection.as_slice()) {
        if data.len() < 12 {
            return Err(FontLoadingError::Parse);
        }
        let count: u32 = be_u32(slice_subrange(data.as_slice(), 8, 12));
        if count == 0 {
            Err(FontLoadingError::Parse)
        } else if count == 1 {
            Ok(FileType::Single)
        } else {
            Ok(FileType::Collection(count))
        }
    } else {
        match detect_format(data) {
            Some(_) => Ok(FileType::Single),
            None => Err(FontLoadingError::UnknownFormat),
        }
    }
}

/// Whether a face of the given format can have been read from the file that
/// begins with `data`.
pub fn format_agrees(data: &Vec<u8>, format: FontFormat) -> (agrees: bool)
    ensures
        agrees == spec_format_agrees(data@, format),
{
    let collection: [u8; 4] = [0x74u8, 0x74u8, 0x63u8, 0x66u8];
    assert(collection@ =~= signature_collection());
    if matches_at(data, 0, collection.as_slice()) {
        match format {
            FontFormat::TrueType => true,
            FontFormat::OpenType => true,
            _ => false,
        }
    } else {
        match detect_format(data) {
            Some(detected) => detected == format,
            None => false,
        }
    }
}

} // verus!
