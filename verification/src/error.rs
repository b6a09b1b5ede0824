//! The two kinds of failure: opening a font, and loading one of its glyphs.

use vstd::prelude::*;

verus! {

/// Why a font could not be opened or analyzed.
#[derive(Clone, Copy, Debug, PartialEq, Eq, Structural)]
pub enum FontLoadingError {
    /// The data does not begin like any supported font format.
    UnknownFormat,
    /// The font index does not select a face of the file.
    NoSuchFontInCollection,
    /// The data begins like a font, but no face could be read from it.
    Parse,
    /// The file could not be read.
    Io,
    /// A loader has no way to perform the operation. The loader of this
    /// crate performs every operation and never answers so.
    NotImplemented,
}

/// Why a glyph-indexed operation failed.
#[derive(Clone, Copy, Debug, PartialEq, Eq, Structural)]
pub enum GlyphLoadingError {
    /// The glyph ID is not below the font's glyph count.
    NoSuchGlyph,
    /// The requested hinting cannot be applied by this operation.
    UnsupportedHinting,
}

impl FontLoadingError {
    /// A short description of the error.
    pub fn message(&self) -> (text: &'static str)
        ensures
            text@ == self.message_text(),
    {
        match self {
            FontLoadingError::UnknownFormat => "unknown format",
            FontLoadingError::NoSuchFontInCollection => "no such font in the collection",
            FontLoadingError::Parse => "parse error",
            FontLoadingError::Io => "I/O error",
            FontLoadingError::NotImplemented => "not implemented",
        }
    }

    /// The text that `message` returns.
    pub open spec fn message_text(&self) -> Seq<char> {
        match self {
            FontLoadingError::UnknownFormat => "unknown format"@,
            FontLoadingError::NoSuchFontInCollection => "no such font in the collection"@,
            FontLoadingError::Parse => "parse error"@,
            FontLoadingError::Io => "I/O error"@,
            FontLoadingError::NotImplemented => "not implemented"@,
        }
    }
}

impl GlyphLoadingError {
    /// A short description of the error.
    pub fn message(&self) -> (text: &'static str)
        ensures
            text@ == self.message_text(),
    {
        match self {
            GlyphLoadingError::NoSuchGlyph => "no such glyph",
            GlyphLoadingError::UnsupportedHinting => "unsupported hinting",
        }
    }

    /// The text that `message` returns.
    pub open spec fn message_text(&self) -> Seq<char> {
        match self {
            GlyphLoadingError::NoSuchGlyph => "no such glyph"@,
            GlyphLoadingError::UnsupportedHinting => "unsupported hinting"@,
        }
    }
}

} // verus!
