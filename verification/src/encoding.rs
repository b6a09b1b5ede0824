//! Big-endian numbers and UTF-16 text, as font files hold them.

use byteorder::{BigEndian, ByteOrder};
use vstd::prelude::*;
use vstd::slice::slice_subrange;

verus! {

/// The text that a sequence of UTF-16 code units stands for, or `None` where
/// the sequence is not valid UTF-16. This names what `String::from_utf16`
/// decides and returns; nothing more is said of it here.
pub uninterp spec fn utf16_decoding(units: Seq<u16>) -> Option<Seq<char>>;

/// The number that two bytes hold, the higher byte first.
pub open spec fn spec_be_u16(high: u8, low: u8) -> u16 {
    (high * 256 + low) as u16
}

/// The number that four bytes hold, the highest byte first.
pub open spec fn spec_be_u32(b0: u8, b1: u8, b2: u8, b3: u8) -> u32 {
    (b0 * 16777216 + b1 * 65536 + b2 * 256 + b3) as u32
}

/// Reads the first two bytes of `buf` as a big-endian number.
///
/// This is `byteorder::BigEndian::read_u16`, taken on trust. It panics on
/// fewer than two bytes, which the precondition leaves out.
#[verifier::external_body]
pub(crate) fn be_u16(buf: &[u8]) -> (value: u16)
    requires
        buf@.len() >= 2,
    ensures
        value == spec_be_u16(buf@[0], buf@[1]),
{
    BigEndian::read_u16(buf)
}

/// Reads the first four bytes of `buf` as a big-endian number.
///
/// This is `byteorder::BigEndian::read_u32`, taken on trust. It panics on
/// fewer than four bytes, which the precondition leaves out.
#[verifier::external_body]
pub(crate) fn be_u32(buf: &[u8]) -> (value: u32)
    requires
        buf@.len() >= 4,
    ensures
        value == spec_be_u32(buf@[0], buf@[1], buf@[2], buf@[3]),
{
    BigEndian::read_u32(buf)
}

/// Decodes UTF-16 code units into text.
///
/// This is `String::from_utf16`, taken on trust: it returns the decoded text,
/// or an error where the units are not valid UTF-16. The error is mapped to
/// `None`.
#[verifier::external_body]
pub(crate) fn text_from_utf16(units: &Vec<u16>) -> (text: Option<String>)
    ensures
        match text {
            Some(t) => utf16_decoding(units@) == Some(t@),
            None => utf16_decoding(units@) is None,
        },
{
    String::from_utf16(units.as_slice()).ok()
}

/// The code units that `bytes` hold, two bytes each, the higher byte first.
/// A last odd byte is not part of any unit.
pub open spec fn spec_utf16_units(bytes: Seq<u8>) -> Seq<u16> {
    Seq::new((bytes.len() / 2) as nat, |k: int| spec_be_u16(bytes[2 * k], bytes[2 * k + 1]))
}

/// The text that `bytes` hold in big-endian UTF-16, or `None` where their
/// number is odd or the units are not valid UTF-16.
pub open spec fn spec_decode_utf16_be(bytes: Seq<u8>) -> Option<Seq<char>> {
    if bytes.len() % 2 == 0 {
        utf16_decoding(spec_utf16_units(bytes))
    } else {
        None
    }
}

/// The code units that `bytes` hold in big-endian order, or `None` where the
/// number of bytes is odd.
pub fn utf16_units(bytes: &Vec<u8>) -> (units: Option<Vec<u16>>)
    ensures
        units is Some <==> bytes@.len() % 2 == 0,
        units matches Some(u) ==> u@ == spec_utf16_units(bytes@),
{
    let n: usize = bytes.len();
    if n % 2 != 0 {
        return None;
    }
    let mut units: Vec<u16> = Vec::new();
    let mut i: usize = 0;
    while i < n
        invariant
            n == bytes@.len(),
            n % 2 == 0,
            i % 2 == 0,
            i <= n,
            units@.len() == i / 2,
            forall|k: int|
                0 <= k < units@.len() ==> units@[k] == spec_be_u16(
                    bytes@[2 * k],
                    bytes@[2 * k + 1],
                ),
        decreases n - i,
    {
        let pair: &[u8] = slice_subrange(bytes.as_slice(), i, i + 2);
        let unit: u16 = be_u16(pair);
        units.push(unit);
        i += 2;
    }
    proof {
        assert(units@ =~= spec_utf16_units(bytes@));
    }
    Some(units)
}

/// Decodes big-endian UTF-16 text.
pub fn decode_utf16_be(bytes: &Vec<u8>) -> (text: Option<String>)
    ensures
        match text {
            Some(t) => spec_decode_utf16_be(bytes@) == Some(t@),
            None => spec_decode_utf16_be(bytes@) is None,
        },
{
    match utf16_units(bytes) {
        Some(units) => text_from_utf16(&units),
        None => None,
    }
}

} // verus!
