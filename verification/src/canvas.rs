//! Pixel buffers that glyphs are drawn into, and the formats of their pixels.

use crate::geometry::{RectI, Vector2I};
use vstd::arithmetic::div_mod::{lemma_fundamental_div_mod, lemma_mod_pos_bound};
use vstd::prelude::*;

verus! {

/// How the pixels of a buffer are stored.
#[derive(Clone, Copy, Debug, PartialEq, Eq, Structural)]
pub enum Format {
    /// Four bytes per pixel: red, green, blue, alpha.
    Rgba32,
    /// One byte per pixel: its coverage.
    A8,
    /// One bit per pixel, the leftmost pixel in the highest bit of a byte;
    /// each row begins at a byte.
    Bilevel,
}

/// How a glyph is to be rendered.
#[derive(Clone, Copy, Debug, PartialEq, Eq, Structural)]
pub enum RasterizationOptions {
    /// Black and white: each pixel is either covered or not.
    Bilevel,
    /// Antialiased, with one coverage per pixel.
    GrayscaleAa,
    /// Antialiased, with one coverage per colour channel.
    SubpixelAa,
}

/// The value of a pixel, whatever the format it is stored in.
#[derive(Clone, Copy, Debug, PartialEq, Eq, Structural)]
pub struct Pixel {
    pub r: u8,
    pub g: u8,
    pub b: u8,
    pub a: u8,
}

impl Pixel {
    /// The pixel whose four channels all hold `coverage`.
    pub open spec fn spec_uniform(coverage: u8) -> Pixel {
        Pixel { r: coverage, g: coverage, b: coverage, a: coverage }
    }

    /// The pixel whose four channels all hold `coverage`.
    #[verifier::when_used_as_spec(spec_uniform)]
    pub fn uniform(coverage: u8) -> (pixel: Pixel)
        ensures
            pixel == Pixel::spec_uniform(coverage),
    {
        Pixel { r: coverage, g: coverage, b: coverage, a: coverage }
    }
}

impl Format {
    /// The number of bytes that a row of `width` pixels takes.
    pub open spec fn row_bytes(&self, width: int) -> int {
        match self {
            Format::Rgba32 => 4 * width,
            Format::A8 => width,
            Format::Bilevel => (width + 7) / 8,
        }
    }

    /// The number of pixels that a row of `stride` bytes has room for.
    pub open spec fn slots(&self, stride: int) -> int {
        match self {
            Format::Rgba32 => stride / 4,
            Format::A8 => stride,
            Format::Bilevel => 8 * stride,
        }
    }

    /// Whether rows of `width` pixels can lie `stride` bytes apart: a row
    /// must fit in `stride` bytes, and each row must begin with a whole
    /// pixel.
    pub open spec fn fits_rows(&self, width: int, stride: int) -> bool {
        &&& self.row_bytes(width) <= stride
        &&& *self == Format::Rgba32 ==> stride % 4 == 0
    }

    /// What is read back from a pixel of this format after `pixel` was
    /// written to it. Thirty-two bits keep all four channels; eight bits keep
    /// the alpha channel as the coverage; one bit keeps whether the alpha is
    /// at least 128.
    pub open spec fn spec_stored(&self, pixel: Pixel) -> Pixel {
        match self {
            Format::Rgba32 => pixel,
            Format::A8 => Pixel::spec_uniform(pixel.a),
            Format::Bilevel => Pixel::spec_uniform(
                if pixel.a >= 128 {
                    255u8
                } else {
                    0u8
                },
            ),
        }
    }

    /// What is read back from a pixel of this format after `pixel` was
    /// written to it.
    #[verifier::when_used_as_spec(spec_stored)]
    pub fn stored(&self, pixel: Pixel) -> (kept: Pixel)
        ensures
            kept == self.spec_stored(pixel),
    {
        match self {
            Format::Rgba32 => pixel,
            Format::A8 => Pixel::uniform(pixel.a),
            Format::Bilevel => Pixel::uniform(
                if pixel.a >= 128 {
                    255u8
                } else {
                    0u8
                },
            ),
        }
    }
}

impl RasterizationOptions {
    /// The format in which a glyph rendered in this way is delivered.
    pub open spec fn spec_format(&self) -> Format {
        match self {
            RasterizationOptions::Bilevel => Format::Bilevel,
            RasterizationOptions::GrayscaleAa => Format::A8,
            RasterizationOptions::SubpixelAa => Format::Rgba32,
        }
    }

    /// The format in which a glyph rendered in this way is delivered.
    #[verifier::when_used_as_spec(spec_format)]
    pub fn format(&self) -> (format: Format)
        ensures
            format == self.spec_format(),
    {
        match self {
            RasterizationOptions::Bilevel => Format::Bilevel,
            RasterizationOptions::GrayscaleAa => Format::A8,
            RasterizationOptions::SubpixelAa => Format::Rgba32,
        }
    }
}

/// The bit of a byte of a bilevel row that holds the pixel in column `x`.
pub open spec fn spec_bit_mask(x: int) -> u8 {
    0x80u8 >> ((x % 8) as u8)
}

/// The pixel in column `x` of row `y` of a buffer of the given format, whose
/// rows lie `stride` bytes apart.
pub open spec fn pixel_in(format: Format, bytes: Seq<u8>, stride: int, x: int, y: int) -> Pixel {
    match format {
        Format::Rgba32 => Pixel {
            r: bytes[y * stride + 4 * x],
            g: bytes[y * stride + 4 * x + 1],
            b: bytes[y * stride + 4 * x + 2],
            a: bytes[y * stride + 4 * x + 3],
        },
        Format::A8 => Pixel::spec_uniform(bytes[y * stride + x]),
        Format::Bilevel => Pixel::spec_uniform(
            if bytes[y * stride + x / 8] & spec_bit_mask(x) != 0 {
                255u8
            } else {
                0u8
            },
        ),
    }
}

/// Whether `bytes` are `height` rows of `width` pixels of the given format,
/// `stride` bytes apart.
pub open spec fn holds_pixels(format: Format, bytes: Seq<u8>, width: int, height: int, stride: int) -> bool {
    &&& 0 <= width
    &&& 0 <= height
    &&& format.fits_rows(width, stride)
    &&& bytes.len() == stride * height
}

/// Where row `y` begins in a buffer: `y * stride`, which lies within the
/// buffer together with the whole row.
proof fn lemma_row_in_buffer(len: int, height: int, stride: int, y: int)
    requires
        0 <= y < height,
        0 <= stride,
        len == stride * height,
    ensures
        0 <= y * stride,
        y * stride + stride <= len,
{
    assert(0 <= y * stride) by (nonlinear_arith)
        requires
            0 <= y,
            0 <= stride,
    ;
    assert(y * stride + stride <= stride * height) by (nonlinear_arith)
        requires
            0 <= y < height,
            0 <= stride,
    ;
}

/// The bit mask for column `x` of a bilevel row.
fn bit_mask(x: usize) -> (mask: u8)
    ensures
        mask == spec_bit_mask(x as int),
        mask != 0,
    no_unwind
{
    let k: u8 = (x % 8) as u8;
    assert(0x80u8 >> k != 0) by (bit_vector)
        requires
            k < 8,
    ;
    0x80u8 >> k
}

/// Reads the pixel in column `x` of row `y`.
fn read_pixel(format: Format, bytes: &Vec<u8>, width: usize, height: usize, stride: usize, x: usize, y: usize) -> (pixel: Pixel)
    requires
        holds_pixels(format, bytes@, width as int, height as int, stride as int),
        x < width,
        y < height,
    ensures
        pixel == pixel_in(format, bytes@, stride as int, x as int, y as int),
{
    let total: usize = bytes.len();
    proof {
        lemma_row_in_buffer(total as int, height as int, stride as int, y as int);
    }
    let row: usize = y * stride;
    match format {
        Format::Rgba32 => {
            let i: usize = row + 4 * x;
            Pixel { r: bytes[i], g: bytes[i + 1], b: bytes[i + 2], a: bytes[i + 3] }
        },
        Format::A8 => Pixel::uniform(bytes[row + x]),
        Format::Bilevel => {
            let byte: u8 = bytes[row + x / 8];
            let mask: u8 = bit_mask(x);
            Pixel::uniform(
                if byte & mask != 0 {
                    255u8
                } else {
                    0u8
                },
            )
        },
    }
}

/// Rows do not overlap: a lower row ends where a higher one begins, or before.
proof fn lemma_rows_apart(stride: int, y1: int, y2: int)
    requires
        0 <= y1 < y2,
        0 <= stride,
    ensures
        y1 * stride + stride <= y2 * stride,
{
    assert(y1 * stride + stride <= y2 * stride) by (nonlinear_arith)
        requires
            0 <= y1 < y2,
            0 <= stride,
    ;
}

/// Setting or clearing the bit of one column leaves the bits of the other
/// columns of the byte as they were, and sets or clears that one.
proof fn lemma_bit_masks(byte: u8, i: u8, j: u8)
    requires
        i < 8,
        j < 8,
    ensures
        (byte | (0x80u8 >> i)) & (0x80u8 >> i) != 0,
        (byte & !(0x80u8 >> i)) & (0x80u8 >> i) == 0,
        i != j ==> (byte | (0x80u8 >> i)) & (0x80u8 >> j) == byte & (0x80u8 >> j),
        i != j ==> (byte & !(0x80u8 >> i)) & (0x80u8 >> j) == byte & (0x80u8 >> j),
{
    assert((byte | (0x80u8 >> i)) & (0x80u8 >> i) != 0) by (bit_vector)
        requires
            i < 8,
    ;
    assert((byte & !(0x80u8 >> i)) & (0x80u8 >> i) == 0) by (bit_vector)
        requires
            i < 8,
    ;
    assert(i != j ==> (byte | (0x80u8 >> i)) & (0x80u8 >> j) == byte & (0x80u8 >> j))
        by (bit_vector)
        requires
            i < 8,
            j < 8,
    ;
    assert(i != j ==> (byte & !(0x80u8 >> i)) & (0x80u8 >> j) == byte & (0x80u8 >> j))
        by (bit_vector)
        requires
            i < 8,
            j < 8,
    ;
}

/// Writes `pixel` to column `x` of row `y`, as far as the format can hold it.
/// Nothing else changes in any row, within the width or beyond it.
fn write_pixel(format: Format, bytes: &mut Vec<u8>, width: usize, height: usize, stride: usize, x: usize, y: usize, pixel: Pixel)
    requires
        holds_pixels(format, old(bytes)@, width as int, height as int, stride as int),
        x < width,
        y < height,
    ensures
        final(bytes)@.len() == old(bytes)@.len(),
        forall|x2: int, y2: int|
            0 <= x2 < format.slots(stride as int) && 0 <= y2 < height ==> #[trigger] pixel_in(
                format,
                final(bytes)@,
                stride as int,
                x2,
                y2,
            ) == if x2 == x && y2 == y {
                format.spec_stored(pixel)
            } else {
                pixel_in(format, old(bytes)@, stride as int, x2, y2)
            },
    no_unwind
{
    let total: usize = bytes.len();
    proof {
        lemma_row_in_buffer(total as int, height as int, stride as int, y as int);
    }
    let row: usize = y * stride;
    match format {
        Format::Rgba32 => {
            let i: usize = row + 4 * x;
            bytes[i] = pixel.r;
            bytes[i + 1] = pixel.g;
            bytes[i + 2] = pixel.b;
            bytes[i + 3] = pixel.a;
        },
        Format::A8 => {
            bytes[row + x] = pixel.a;
        },
        Format::Bilevel => {
            let i: usize = row + x / 8;
            let byte: u8 = bytes[i];
            let mask: u8 = bit_mask(x);
            if pixel.a >= 128 {
                bytes[i] = byte | mask;
            } else {
                bytes[i] = byte & !mask;
            }
        },
    }
    proof {
        let s = stride as int;
        assert forall|x2: int, y2: int|
            0 <= x2 < format.slots(s) && 0 <= y2 < height implies #[trigger] pixel_in(
            format,
            bytes@,
            s,
            x2,
            y2,
        ) == if x2 == x && y2 == y {
            format.spec_stored(pixel)
        } else {
            pixel_in(format, old(bytes)@, s, x2, y2)
        } by {
            lemma_row_in_buffer(total as int, height as int, s, y2);
            if y2 < y {
                lemma_rows_apart(s, y2, y as int);
            }
            if y < y2 {
                lemma_rows_apart(s, y as int, y2);
            }
            if format == Format::Bilevel {
                let old_byte = old(bytes)@[y * s + x / 8];
                lemma_bit_masks(old_byte, ((x as int) % 8) as u8, (x2 % 8) as u8);
            }
        }
    }
}

/// A buffer of pixels that glyphs are drawn into. Its rows run from the top
/// down and lie `stride` bytes apart.
#[derive(Debug)]
pub struct Canvas {
    pixels: Vec<u8>,
    width: u32,
    height: u32,
    stride: usize,
    format: Format,
}

impl Canvas {
    #[verifier::type_invariant]
    spec fn well_formed(&self) -> bool {
        self.wf()
    }

    /// What holds of every canvas: its bytes are its rows, which lie
    /// `stride` bytes apart and have room for `width` pixels each.
    pub open spec fn wf(&self) -> bool {
        holds_pixels(
            self.spec_format(),
            self.bytes(),
            self.spec_width() as int,
            self.spec_height() as int,
            self.spec_stride() as int,
        )
    }

    /// The number of pixels in a row.
    pub closed spec fn spec_width(&self) -> u32 {
        self.width
    }

    /// The number of rows.
    pub closed spec fn spec_height(&self) -> u32 {
        self.height
    }

    /// The number of bytes from the start of one row to the start of the next.
    pub closed spec fn spec_stride(&self) -> usize {
        self.stride
    }

    /// The format of the pixels.
    pub closed spec fn spec_format(&self) -> Format {
        self.format
    }

    /// The bytes of the buffer.
    pub closed spec fn bytes(&self) -> Seq<u8> {
        self.pixels@
    }

    /// The pixel in column `x` of row `y`.
    pub open spec fn spec_pixel(&self, x: int, y: int) -> Pixel {
        pixel_in(self.spec_format(), self.bytes(), self.spec_stride() as int, x, y)
    }

    /// A canvas of `height` rows of `width` pixels, all bytes zero, with rows
    /// `stride` bytes apart; `None` where rows cannot lie so, or the buffer
    /// would be longer than the machine can address.
    pub fn with_stride(width: u32, height: u32, stride: usize, format: Format) -> (canvas: Option<Canvas>)
        ensures
            canvas is Some <==> format.fits_rows(width as int, stride as int) && stride * height
                <= usize::MAX,
            canvas matches Some(c) ==> {
                &&& c.wf()
                &&& c.spec_width() == width
                &&& c.spec_height() == height
                &&& c.spec_stride() == stride
                &&& c.spec_format() == format
                &&& c.bytes().len() == stride * height
                &&& forall|i: int| 0 <= i < c.bytes().len() ==> c.bytes()[i] == 0
            },
    {
        let row: u64 = match format {
            Format::Rgba32 => 4 * (width as u64),
            Format::A8 => width as u64,
            Format::Bilevel => (width as u64 + 7) / 8,
        };
        if (stride as u64) < row {
            return None;
        }
        if format == Format::Rgba32 && stride % 4 != 0 {
            return None;
        }
        let length: usize = match stride.checked_mul(height as usize) {
            Some(length) => length,
            None => {
                return None;
            },
        };
        let mut pixels: Vec<u8> = Vec::new();
        let mut i: usize = 0;
        while i < length
            invariant
                i <= length,
                pixels@.len() == i,
                forall|j: int| 0 <= j < i ==> pixels@[j] == 0,
            decreases length - i,
        {
            pixels.push(0u8);
            i += 1;
        }
        Some(Canvas { pixels, width, height, stride, format })
    }

    /// A canvas of `height` rows of `width` pixels, all bytes zero, whose rows
    /// follow one another without a gap; `None` where the buffer would be
    /// longer than the machine can address.
    pub fn new(width: u32, height: u32, format: Format) -> (canvas: Option<Canvas>)
        ensures
            canvas is Some <==> format.row_bytes(width as int) <= usize::MAX
                && format.row_bytes(width as int) * height <= usize::MAX,
            canvas matches Some(c) ==> {
                &&& c.wf()
                &&& c.spec_width() == width
                &&& c.spec_height() == height
                &&& c.spec_stride() == format.row_bytes(width as int)
                &&& c.spec_format() == format
                &&& c.bytes().len() == c.spec_stride() * height
                &&& forall|i: int| 0 <= i < c.bytes().len() ==> c.bytes()[i] == 0
            },
    {
        let row: u64 = match format {
            Format::Rgba32 => 4 * (width as u64),
            Format::A8 => width as u64,
            Format::Bilevel => (width as u64 + 7) / 8,
        };
        if row > usize::MAX as u64 {
            return None;
        }
        Canvas::with_stride(width, height, row as usize, format)
    }

    /// The canvas that holds the given bytes as `height` rows of `width`
    /// pixels, `stride` bytes apart; `None` where the bytes are not exactly
    /// `height` rows of `stride` bytes, or rows cannot lie so.
    pub fn from_pixels(pixels: Vec<u8>, width: u32, height: u32, stride: usize, format: Format) -> (canvas: Option<Canvas>)
        ensures
            canvas is Some <==> holds_pixels(
                format,
                pixels@,
                width as int,
                height as int,
                stride as int,
            ),
            canvas matches Some(c) ==> {
                &&& c.wf()
                &&& c.spec_width() == width
                &&& c.spec_height() == height
                &&& c.spec_stride() == stride
                &&& c.spec_format() == format
                &&& c.bytes() == pixels@
            },
    {
        let row: u64 = match format {
            Format::Rgba32 => 4 * (width as u64),
            Format::A8 => width as u64,
            Format::Bilevel => (width as u64 + 7) / 8,
        };
        if (stride as u64) < row {
            return None;
        }
        if format == Format::Rgba32 && stride % 4 != 0 {
            return None;
        }
        let total: usize = pixels.len();
        match stride.checked_mul(height as usize) {
            Some(length) => {
                if length == total {
                    Some(Canvas { pixels, width, height, stride, format })
                } else {
                    None
                }
            },
            None => None,
        }
    }

    /// The number of pixels in a row.
    #[verifier::when_used_as_spec(spec_width)]
    pub fn width(&self) -> (width: u32)
        ensures
            width == self.spec_width(),
    {
        self.width
    }

    /// The number of rows.
    #[verifier::when_used_as_spec(spec_height)]
    pub fn height(&self) -> (height: u32)
        ensures
            height == self.spec_height(),
    {
        self.height
    }

    /// The number of bytes from the start of one row to the start of the next.
    #[verifier::when_used_as_spec(spec_stride)]
    pub fn stride(&self) -> (stride: usize)
        ensures
            stride == self.spec_stride(),
    {
        self.stride
    }

    /// The format of the pixels.
    #[verifier::when_used_as_spec(spec_format)]
    pub fn format(&self) -> (format: Format)
        ensures
            format == self.spec_format(),
    {
        self.format
    }

    /// The bytes of the buffer, row after row.
    pub fn pixels(&self) -> (pixels: &Vec<u8>)
        ensures
            pixels@ == self.bytes(),
    {
        &self.pixels
    }

    /// Whether `source`, placed with its top left corner at column `origin_x`
    /// and row `origin_y` of a canvas, covers the pixel in column `x` of row
    /// `y` of that canvas.
    pub open spec fn covers(source: &Canvas, origin_x: int, origin_y: int, x: int, y: int) -> bool {
        &&& origin_x <= x < origin_x + source.spec_width()
        &&& origin_y <= y < origin_y + source.spec_height()
    }

    /// The pixel in column `x` of row `y` after `source` was copied onto this
    /// canvas at (`origin_x`, `origin_y`): where the source covers a pixel
    /// within the width of the canvas, the pixel of the source as this
    /// canvas's format keeps it; elsewhere, the pixel as it was.
    pub open spec fn spec_blitted(&self, source: &Canvas, origin_x: int, origin_y: int, x: int, y: int) -> Pixel {
        if x < self.spec_width() && Canvas::covers(source, origin_x, origin_y, x, y) {
            self.spec_format().spec_stored(source.spec_pixel(x - origin_x, y - origin_y))
        } else {
            self.spec_pixel(x, y)
        }
    }

    /// Whether this canvas is `before` with `source` copied onto it at
    /// (`origin_x`, `origin_y`): of the same size, stride and format, and
    /// with the pixels that `spec_blitted` gives, in every place of every
    /// row that has room for a pixel, within the width or beyond it.
    pub open spec fn is_blit_of(&self, before: &Canvas, source: &Canvas, origin_x: int, origin_y: int) -> bool {
        &&& self.wf()
        &&& self.spec_width() == before.spec_width()
        &&& self.spec_height() == before.spec_height()
        &&& self.spec_stride() == before.spec_stride()
        &&& self.spec_format() == before.spec_format()
        &&& self.bytes().len() == before.bytes().len()
        &&& forall|x: int, y: int|
            0 <= x < before.spec_format().slots(before.spec_stride() as int) && 0 <= y
                < before.spec_height() ==> #[trigger] self.spec_pixel(x, y)
                == before.spec_blitted(
                source,
                origin_x,
                origin_y,
                x,
                y,
            )
    }

    /// Copies `source` onto this canvas, with its top left corner at column
    /// `origin_x` and row `origin_y`. The part of the source that falls
    /// outside the canvas is left out; pixels are converted to the format of
    /// the canvas.
    pub fn blit_from(&mut self, source: &Canvas, origin_x: i64, origin_y: i64)
        ensures
            final(self).is_blit_of(old(self), source, origin_x as int, origin_y as int),
    {
        proof {
            use_type_invariant(&*self);
            use_type_invariant(source);
        }
        let canvas_width: i64 = self.width as i64;
        let canvas_height: i64 = self.height as i64;
        if origin_x >= canvas_width || origin_y >= canvas_height {
            return ;
        }
        let x0: i64 = if origin_x > 0 { origin_x } else { 0 };
        let y0: i64 = if origin_y > 0 { origin_y } else { 0 };
        let x1: i64 = if origin_x + (source.width as i64) < canvas_width {
            origin_x + (source.width as i64)
        } else {
            canvas_width
        };
        let y1: i64 = if origin_y + (source.height as i64) < canvas_height {
            origin_y + (source.height as i64)
        } else {
            canvas_height
        };
        if x1 <= x0 || y1 <= y0 {
            return ;
        }
        let ghost before: Seq<u8> = self.pixels@;
        let ghost stride: int = self.stride as int;
        let format: Format = self.format;
        let mut y: i64 = y0;
        while y < y1
            invariant
                y0 <= y <= y1,
                0 <= x0 < x1 <= canvas_width,
                0 <= y0 < y1 <= canvas_height,
                x0 == (if origin_x > 0 { origin_x } else { 0 }),
                y0 == (if origin_y > 0 { origin_y } else { 0 }),
                x1 <= origin_x + source.width,
                y1 <= origin_y + source.height,
                x1 == canvas_width || x1 == origin_x + source.width,
                y1 == canvas_height || y1 == origin_y + source.height,
                canvas_width == self.width,
                canvas_height == self.height,
                self.width == old(self).width,
                self.height == old(self).height,
                self.stride == old(self).stride,
                self.format == old(self).format,
                stride == self.stride,
                format == self.format,
                before == old(self).pixels@,
                self.pixels@.len() == before.len(),
                holds_pixels(format, before, self.width as int, self.height as int, stride),
                holds_pixels(
                    source.format,
                    source.pixels@,
                    source.width as int,
                    source.height as int,
                    source.stride as int,
                ),
                forall|x2: int, y2: int|
                    0 <= x2 < format.slots(stride) && 0 <= y2 < canvas_height ==> #[trigger] pixel_in(
                        format,
                        self.pixels@,
                        stride,
                        x2,
                        y2,
                    ) == if y2 < y && x2 < canvas_width && Canvas::covers(
                        source,
                        origin_x as int,
                        origin_y as int,
                        x2,
                        y2,
                    ) {
                        format.spec_stored(
                            pixel_in(
                                source.format,
                                source.pixels@,
                                source.stride as int,
                                x2 - origin_x,
                                y2 - origin_y,
                            ),
                        )
                    } else {
                        pixel_in(format, before, stride, x2, y2)
                    },
            decreases y1 - y,
        {
            let mut x: i64 = x0;
            while x < x1
                invariant
                    y0 <= y < y1,
                    x0 <= x <= x1,
                    0 <= x0 < x1 <= canvas_width,
                    0 <= y0 < y1 <= canvas_height,
                    x0 == (if origin_x > 0 { origin_x } else { 0 }),
                    y0 == (if origin_y > 0 { origin_y } else { 0 }),
                    x1 <= origin_x + source.width,
                    y1 <= origin_y + source.height,
                    x1 == canvas_width || x1 == origin_x + source.width,
                    canvas_width == self.width,
                    canvas_height == self.height,
                    self.width == old(self).width,
                    self.height == old(self).height,
                    self.stride == old(self).stride,
                    self.format == old(self).format,
                    stride == self.stride,
                    format == self.format,
                    self.pixels@.len() == before.len(),
                    holds_pixels(format, before, self.width as int, self.height as int, stride),
                    holds_pixels(
                        source.format,
                        source.pixels@,
                        source.width as int,
                        source.height as int,
                        source.stride as int,
                    ),
                    forall|x2: int, y2: int|
                        0 <= x2 < format.slots(stride) && 0 <= y2 < canvas_height ==> #[trigger] pixel_in(
                            format,
                            self.pixels@,
                            stride,
                            x2,
                            y2,
                        ) == if (y2 < y || (y2 == y && x2 < x)) && x2 < canvas_width && Canvas::covers(
                            source,
                            origin_x as int,
                            origin_y as int,
                            x2,
                            y2,
                        ) {
                            format.spec_stored(
                                pixel_in(
                                    source.format,
                                    source.pixels@,
                                    source.stride as int,
                                    x2 - origin_x,
                                    y2 - origin_y,
                                ),
                            )
                        } else {
                            pixel_in(format, before, stride, x2, y2)
                        },
                decreases x1 - x,
            {
                let pixel: Pixel = read_pixel(
                    source.format,
                    &source.pixels,
                    source.width as usize,
                    source.height as usize,
                    source.stride,
                    (x - origin_x) as usize,
                    (y - origin_y) as usize,
                );
                write_pixel(
                    self.format,
                    &mut self.pixels,
                    self.width as usize,
                    self.height as usize,
                    self.stride,
                    x as usize,
                    y as usize,
                    pixel,
                );
                x += 1;
            }
            y += 1;
        }
    }

    /// The pixel in column `x` of row `y`, or `None` where the canvas has no
    /// such pixel.
    pub fn pixel(&self, x: u32, y: u32) -> (pixel: Option<Pixel>)
        ensures
            pixel == if x < self.spec_width() && y < self.spec_height() {
                Some(self.spec_pixel(x as int, y as int))
            } else {
                None
            },
    {
        proof {
            use_type_invariant(self);
        }
        if x < self.width && y < self.height {
            Some(
                read_pixel(
                    self.format,
                    &self.pixels,
                    self.width as usize,
                    self.height as usize,
                    self.stride,
                    x as usize,
                    y as usize,
                ),
            )
        } else {
            None
        }
    }
}

/// A byte is made of its eight bits: two bytes that agree in each bit are
/// the same byte.
proof fn lemma_bits_make_the_byte(a: u8, b: u8)
    requires
        (a & 0x80 != 0) == (b & 0x80 != 0),
        (a & 0x40 != 0) == (b & 0x40 != 0),
        (a & 0x20 != 0) == (b & 0x20 != 0),
        (a & 0x10 != 0) == (b & 0x10 != 0),
        (a & 0x08 != 0) == (b & 0x08 != 0),
        (a & 0x04 != 0) == (b & 0x04 != 0),
        (a & 0x02 != 0) == (b & 0x02 != 0),
        (a & 0x01 != 0) == (b & 0x01 != 0),
    ensures
        a == b,
{
    assert(a == b) by (bit_vector)
        requires
            (a & 0x80 != 0) == (b & 0x80 != 0),
            (a & 0x40 != 0) == (b & 0x40 != 0),
            (a & 0x20 != 0) == (b & 0x20 != 0),
            (a & 0x10 != 0) == (b & 0x10 != 0),
            (a & 0x08 != 0) == (b & 0x08 != 0),
            (a & 0x04 != 0) == (b & 0x04 != 0),
            (a & 0x02 != 0) == (b & 0x02 != 0),
            (a & 0x01 != 0) == (b & 0x01 != 0),
    ;
}

/// The masks of the eight columns that share a byte of a bilevel row.
proof fn lemma_bit_mask_values(x: int)
    requires
        0 <= x,
        x % 8 == 0,
    ensures
        spec_bit_mask(x) == 0x80,
        spec_bit_mask(x + 1) == 0x40,
        spec_bit_mask(x + 2) == 0x20,
        spec_bit_mask(x + 3) == 0x10,
        spec_bit_mask(x + 4) == 0x08,
        spec_bit_mask(x + 5) == 0x04,
        spec_bit_mask(x + 6) == 0x02,
        spec_bit_mask(x + 7) == 0x01,
{
    assert(0x80u8 >> 0u8 == 0x80) by (bit_vector);
    assert(0x80u8 >> 1u8 == 0x40) by (bit_vector);
    assert(0x80u8 >> 2u8 == 0x20) by (bit_vector);
    assert(0x80u8 >> 3u8 == 0x10) by (bit_vector);
    assert(0x80u8 >> 4u8 == 0x08) by (bit_vector);
    assert(0x80u8 >> 5u8 == 0x04) by (bit_vector);
    assert(0x80u8 >> 6u8 == 0x02) by (bit_vector);
    assert(0x80u8 >> 7u8 == 0x01) by (bit_vector);
}

/// The pixels of a canvas are all there is to it: two canvases of the same
/// format, size and stride that hold the same pixel in every place of every
/// row hold the same bytes.
pub proof fn law_pixels_determine_bytes(a: Canvas, b: Canvas)
    requires
        a.wf(),
        b.wf(),
        a.spec_format() == b.spec_format(),
        a.spec_width() == b.spec_width(),
        a.spec_height() == b.spec_height(),
        a.spec_stride() == b.spec_stride(),
        forall|x: int, y: int|
            0 <= x < a.spec_format().slots(a.spec_stride() as int) && 0 <= y < a.spec_height()
                ==> #[trigger] a.spec_pixel(x, y) == b.spec_pixel(x, y),
    ensures
        a.bytes() == b.bytes(),
{
    let format = a.spec_format();
    let stride = a.spec_stride() as int;
    let height = a.spec_height() as int;
    assert(a.bytes().len() == b.bytes().len());
    assert forall|i: int| 0 <= i < a.bytes().len() implies a.bytes()[i] == b.bytes()[i] by {
        assert(stride > 0) by (nonlinear_arith)
            requires
                0 <= i < stride * height,
                0 <= stride,
        ;
        let y = i / stride;
        let r = i % stride;
        lemma_fundamental_div_mod(i, stride);
        lemma_mod_pos_bound(i, stride);
        assert(stride * y == y * stride) by (nonlinear_arith);
        assert(0 <= y < height) by (nonlinear_arith)
            requires
                0 <= i < stride * height,
                i == stride * y + r,
                0 <= r < stride,
                0 < stride,
        ;
        match format {
            Format::Rgba32 => {
                let x = r / 4;
                assert(a.spec_pixel(x, y) == b.spec_pixel(x, y));
            },
            Format::A8 => {
                assert(a.spec_pixel(r, y) == b.spec_pixel(r, y));
            },
            Format::Bilevel => {
                let x = 8 * r;
                lemma_bit_mask_values(x);
                assert(a.spec_pixel(x, y) == b.spec_pixel(x, y));
                assert(a.spec_pixel(x + 1, y) == b.spec_pixel(x + 1, y));
                assert(a.spec_pixel(x + 2, y) == b.spec_pixel(x + 2, y));
                assert(a.spec_pixel(x + 3, y) == b.spec_pixel(x + 3, y));
                assert(a.spec_pixel(x + 4, y) == b.spec_pixel(x + 4, y));
                assert(a.spec_pixel(x + 5, y) == b.spec_pixel(x + 5, y));
                assert(a.spec_pixel(x + 6, y) == b.spec_pixel(x + 6, y));
                assert(a.spec_pixel(x + 7, y) == b.spec_pixel(x + 7, y));
                lemma_bits_make_the_byte(a.bytes()[i], b.bytes()[i]);
            },
        }
    }
    assert(a.bytes() =~= b.bytes());
}

/// The sum of the bytes.
pub open spec fn byte_sum(bytes: Seq<u8>) -> nat
    decreases bytes.len(),
{
    if bytes.len() == 0 {
        0
    } else {
        byte_sum(bytes.drop_last()) + bytes.last() as nat
    }
}

/// One byte that is not zero makes the sum of the bytes more than zero.
proof fn lemma_byte_makes_the_sum_positive(bytes: Seq<u8>, i: int)
    requires
        0 <= i < bytes.len(),
        bytes[i] != 0,
    ensures
        byte_sum(bytes) > 0,
    decreases bytes.len(),
{
    if i < bytes.len() - 1 {
        lemma_byte_makes_the_sum_positive(bytes.drop_last(), i);
    }
}

/// Coverage shows in the bytes: where a pixel of a canvas has an alpha that is
/// not zero, the sum of the bytes of the canvas is more than zero.
pub proof fn law_coverage_shows_in_the_bytes(canvas: Canvas, x: int, y: int)
    requires
        canvas.wf(),
        0 <= x < canvas.spec_width(),
        0 <= y < canvas.spec_height(),
        canvas.spec_pixel(x, y).a != 0,
    ensures
        byte_sum(canvas.bytes()) > 0,
{
    let stride = canvas.spec_stride() as int;
    let bytes = canvas.bytes();
    lemma_row_in_buffer(bytes.len() as int, canvas.spec_height() as int, stride, y);
    match canvas.spec_format() {
        Format::Rgba32 => {
            lemma_byte_makes_the_sum_positive(bytes, y * stride + 4 * x + 3);
        },
        Format::A8 => {
            lemma_byte_makes_the_sum_positive(bytes, y * stride + x);
        },
        Format::Bilevel => {
            let byte = bytes[y * stride + x / 8];
            let mask = spec_bit_mask(x);
            assert(byte & mask != 0 ==> byte != 0) by (bit_vector);
            lemma_byte_makes_the_sum_positive(bytes, y * stride + x / 8);
        },
    }
}

/// A glyph as the engine rendered it: an image, and where it lies. `left` is
/// the number of columns from the pen position to the left edge of the image;
/// `top` is the number of rows from the baseline up to its top row.
#[derive(Debug)]
pub struct GlyphBitmap {
    left: i32,
    top: i32,
    image: Canvas,
}

impl GlyphBitmap {
    #[verifier::type_invariant]
    spec fn well_formed(&self) -> bool {
        GlyphBitmap::spec_placeable(self.top, &self.image)
    }

    /// Whether an image that lies `top` rows above the baseline has bounds
    /// that 32-bit coordinates can express.
    pub open spec fn spec_placeable(top: i32, image: &Canvas) -> bool {
        &&& top > i32::MIN
        &&& image.spec_width() <= i32::MAX
        &&& image.spec_height() <= i32::MAX
    }

    /// The number of columns from the pen position to the left edge.
    pub closed spec fn spec_left(&self) -> i32 {
        self.left
    }

    /// The number of rows from the baseline up to the top row.
    pub closed spec fn spec_top(&self) -> i32 {
        self.top
    }

    /// The image of the glyph.
    pub closed spec fn spec_image(&self) -> Canvas {
        self.image
    }

    /// The rendered glyph of the given image and place; `None` where its
    /// bounds are beyond what 32-bit coordinates can express.
    pub fn new(left: i32, top: i32, image: Canvas) -> (bitmap: Option<GlyphBitmap>)
        ensures
            bitmap is Some <==> GlyphBitmap::spec_placeable(top, &image),
            bitmap matches Some(b) ==> {
                &&& b.spec_left() == left
                &&& b.spec_top() == top
                &&& b.spec_image() == image
            },
    {
        if top > i32::MIN && image.width() <= 0x7fff_ffff && image.height() <= 0x7fff_ffff {
            Some(GlyphBitmap { left, top, image })
        } else {
            None
        }
    }

    /// The number of columns from the pen position to the left edge.
    #[verifier::when_used_as_spec(spec_left)]
    pub fn left(&self) -> (left: i32)
        ensures
            left == self.spec_left(),
    {
        self.left
    }

    /// The number of rows from the baseline up to the top row.
    #[verifier::when_used_as_spec(spec_top)]
    pub fn top(&self) -> (top: i32)
        ensures
            top == self.spec_top(),
    {
        self.top
    }

    /// The image of the glyph.
    pub fn image(&self) -> (image: &Canvas)
        ensures
            *image == self.spec_image(),
    {
        &self.image
    }

    /// The rectangle of pixels that the glyph takes up, the pen being at the
    /// origin and rows counting downwards.
    pub open spec fn spec_bounds(&self) -> RectI {
        RectI {
            origin: Vector2I { x: self.spec_left(), y: (-self.spec_top()) as i32 },
            size: Vector2I {
                x: self.spec_image().spec_width() as i32,
                y: self.spec_image().spec_height() as i32,
            },
        }
    }

    /// The rectangle of pixels that the glyph takes up.
    #[verifier::when_used_as_spec(spec_bounds)]
    pub fn bounds(&self) -> (bounds: RectI)
        ensures
            bounds == self.spec_bounds(),
            bounds.origin.x == self.spec_left(),
            bounds.origin.y == -self.spec_top(),
            bounds.size.x == self.spec_image().spec_width(),
            bounds.size.y == self.spec_image().spec_height(),
    {
        proof {
            use_type_invariant(self);
        }
        RectI {
            origin: Vector2I { x: self.left, y: -self.top },
            size: Vector2I { x: self.image.width as i32, y: self.image.height as i32 },
        }
    }
}

} // verus!
