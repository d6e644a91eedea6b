//! One pixel out of what each capture backend hands back: a packed colour
//! value, a bitmap file, a portable pixmap stream, a raw image buffer.

use vstd::prelude::*;
use crate::color::{build_pixel_color, PixelColor};
use crate::error::{CaptureError, ErrorKind};

verus! {

/// What a capture yields, over plain values: the channels `(r, g, b)`, or an
/// error's kind and message.
pub type Outcome = Result<(u8, u8, u8), (ErrorKind, Seq<char>)>;

/// `out` is the result that `expected` describes.
pub open spec fn yields(out: Result<PixelColor, CaptureError>, expected: Outcome) -> bool {
    match (out, expected) {
        (Ok(color), Ok(channels)) => color@ == channels,
        (Err(error), Err(failure)) => error@ == failure,
        _ => false,
    }
}

/// A bitmap file is at least this long.
pub const BITMAP_MIN_LEN: usize = 30;

/// Where a bitmap file holds the offset of its pixel array.
pub const BITMAP_OFFSET_FIELD: usize = 10;

/// The packed colour value that stands for "no pixel there".
pub const NO_PIXEL: u32 = 0xFFFF_FFFF;

pub const MSG_NO_DEVICE_CONTEXT: &'static str = "Falha ao obter Device Context da tela";

pub const MSG_OUT_OF_BOUNDS: &'static str = "Falha ao capturar pixel (coordenada fora da tela)";

pub const MSG_BITMAP_INVALID: &'static str = "Arquivo BMP inválido";

pub const MSG_BITMAP_PIXEL: &'static str = "Dados de pixel BMP inválidos";

pub const MSG_PIXMAP_INVALID: &'static str = "Formato PPM inválido";

pub const MSG_IMAGE_PIXEL: &'static str = "Dados de pixel inválidos";

/// The little-endian 32-bit integer in the four bytes of `data` from `at`.
pub open spec fn le_u32_at(data: Seq<u8>, at: int) -> int
    recommends
        0 <= at,
        at + 4 <= data.len(),
{
    data[at] + 0x100 * data[at + 1] + 0x1_0000 * data[at + 2] + 0x100_0000 * data[at + 3]
}

/// A packed colour value `0x00BBGGRR`, or none where the screen could not
/// be opened. All bits set means that the coordinate has no pixel.
pub open spec fn colorref_sample(sample: Option<u32>) -> Outcome {
    match sample {
        None => Err((ErrorKind::DeviceAccessFailure, MSG_NO_DEVICE_CONTEXT@)),
        Some(packed) => if packed == NO_PIXEL {
            Err((ErrorKind::OutOfBoundsSample, MSG_OUT_OF_BOUNDS@))
        } else {
            Ok(
                (
                    (packed % 0x100) as u8,
                    (packed / 0x100 % 0x100) as u8,
                    (packed / 0x1_0000 % 0x100) as u8,
                ),
            )
        },
    }
}

/// The pixel of a bitmap file: three bytes, blue, green, red, at the offset
/// that the header gives.
pub open spec fn bitmap_sample(data: Seq<u8>) -> Outcome {
    if data.len() < BITMAP_MIN_LEN {
        Err((ErrorKind::MalformedCaptureOutput, MSG_BITMAP_INVALID@))
    } else {
        let offset = le_u32_at(data, BITMAP_OFFSET_FIELD as int);
        if data.len() < offset + 3 {
            Err((ErrorKind::MalformedCaptureOutput, MSG_BITMAP_PIXEL@))
        } else {
            Ok((data[offset + 2], data[offset + 1], data[offset]))
        }
    }
}

/// How many newline bytes `s` holds.
pub open spec fn newline_count(s: Seq<u8>) -> nat
    decreases s.len(),
{
    if s.len() == 0 {
        0
    } else {
        newline_count(s.drop_last()) + if s.last() == 10u8 {
            1nat
        } else {
            0nat
        }
    }
}

/// `at` is the position just after the `n`-th newline of `data`.
pub open spec fn follows_newline(data: Seq<u8>, n: nat, at: int) -> bool {
    &&& 0 < at <= data.len()
    &&& data[at - 1] == 10u8
    &&& newline_count(data.take(at)) == n
}

/// Where the pixels of a binary portable pixmap begin: just after the third
/// newline, the header being three lines. None where there are fewer lines.
pub open spec fn pixmap_data_start(data: Seq<u8>) -> Option<int> {
    if exists|at: int| follows_newline(data, 3, at) {
        Some(choose|at: int| follows_newline(data, 3, at))
    } else {
        None
    }
}

/// The first pixel of a binary portable pixmap: three bytes, red, green,
/// blue, after the header.
pub open spec fn pixmap_sample(data: Seq<u8>) -> Outcome {
    match pixmap_data_start(data) {
        Some(start) => if data.len() < start + 3 {
            Err((ErrorKind::MalformedCaptureOutput, MSG_PIXMAP_INVALID@))
        } else {
            Ok((data[start], data[start + 1], data[start + 2]))
        },
        None => Err((ErrorKind::MalformedCaptureOutput, MSG_PIXMAP_INVALID@)),
    }
}

/// The first pixel of a raw image buffer: three bytes, blue, green, red.
pub open spec fn image_sample(data: Seq<u8>) -> Outcome {
    if data.len() < 3 {
        Err((ErrorKind::MalformedCaptureOutput, MSG_IMAGE_PIXEL@))
    } else {
        Ok((data[2], data[1], data[0]))
    }
}

/// A longer prefix holds at least as many newlines.
pub proof fn lemma_newline_count_grows(data: Seq<u8>, shorter: int, longer: int)
    requires
        0 <= shorter <= longer <= data.len(),
    ensures
        newline_count(data.take(shorter)) <= newline_count(data.take(longer)),
        shorter < longer && data[longer - 1] == 10u8 ==> newline_count(data.take(shorter))
            < newline_count(data.take(longer)),
    decreases longer - shorter,
{
    if shorter < longer {
        assert(data.take(longer).drop_last() =~= data.take(longer - 1));
        lemma_newline_count_grows(data, shorter, longer - 1);
    }
}

/// At most one position follows the `n`-th newline.
pub proof fn lemma_follows_newline_unique(data: Seq<u8>, n: nat, a: int, b: int)
    requires
        follows_newline(data, n, a),
        follows_newline(data, n, b),
    ensures
        a == b,
{
    if a < b {
        lemma_newline_count_grows(data, a, b);
    } else if b < a {
        lemma_newline_count_grows(data, b, a);
    }
}

/// The pixels begin at the position that follows the third newline, where
/// there is one.
pub proof fn lemma_data_start_follows_third_newline(data: Seq<u8>, at: int)
    requires
        follows_newline(data, 3, at),
    ensures
        pixmap_data_start(data) == Some(at),
{
    let chosen = choose|h: int| follows_newline(data, 3, h);
    lemma_follows_newline_unique(data, 3, chosen, at);
}

/// A stream with fewer than three newlines has no pixels.
pub proof fn lemma_no_data_start_without_three_newlines(data: Seq<u8>)
    requires
        newline_count(data) < 3,
    ensures
        pixmap_data_start(data) is None,
{
    assert(data.take(data.len() as int) =~= data);
    assert forall|at: int| !follows_newline(data, 3, at) by {
        if follows_newline(data, 3, at) {
            lemma_newline_count_grows(data, at, data.len() as int);
        }
    }
}

/// Unpacks a colour value `0x00BBGGRR` read from the screen.
pub fn color_from_colorref(sample: Option<u32>) -> (out: Result<PixelColor, CaptureError>)
    ensures
        yields(out, colorref_sample(sample)),
{
    match sample {
        None => Err(CaptureError::new(ErrorKind::DeviceAccessFailure, MSG_NO_DEVICE_CONTEXT)),
        Some(packed) => {
            if packed == NO_PIXEL {
                return Err(CaptureError::new(ErrorKind::OutOfBoundsSample, MSG_OUT_OF_BOUNDS));
            }
            let r = (packed & 0xFF) as u8;
            let g = ((packed >> 8) & 0xFF) as u8;
            let b = ((packed >> 16) & 0xFF) as u8;
            assert(packed & 0xFF == packed % 0x100) by (bit_vector);
            assert((packed >> 8) & 0xFF == packed / 0x100 % 0x100) by (bit_vector);
            assert((packed >> 16) & 0xFF == packed / 0x1_0000 % 0x100) by (bit_vector);
            build_pixel_color(r, g, b)
        },
    }
}

/// Reads the pixel of a bitmap file.
pub fn parse_bitmap_pixel(data: &[u8]) -> (out: Result<PixelColor, CaptureError>)
    ensures
        yields(out, bitmap_sample(data@)),
{
    if data.len() < BITMAP_MIN_LEN {
        return Err(CaptureError::new(ErrorKind::MalformedCaptureOutput, MSG_BITMAP_INVALID));
    }
    let offset: u64 = data[10] as u64 + 0x100 * (data[11] as u64) + 0x1_0000 * (data[12] as u64)
        + 0x100_0000 * (data[13] as u64);
    if (data.len() as u64) < offset + 3 {
        return Err(CaptureError::new(ErrorKind::MalformedCaptureOutput, MSG_BITMAP_PIXEL));
    }
    let at = offset as usize;
    build_pixel_color(data[at + 2], data[at + 1], data[at])
}

/// Reads the first pixel of a binary portable pixmap.
pub fn parse_pixmap_pixel(data: &[u8]) -> (out: Result<PixelColor, CaptureError>)
    ensures
        yields(out, pixmap_sample(data@)),
{
    let mut newlines: u8 = 0;
    let mut at: usize = 0;
    while at < data.len() && newlines < 3
        invariant
            at <= data.len(),
            newlines <= 3,
            newlines as nat == newline_count(data@.take(at as int)),
            newlines == 3 ==> follows_newline(data@, 3, at as int),
        decreases data.len() - at,
    {
        assert(data@.take(at + 1).drop_last() =~= data@.take(at as int));
        if data[at] == 10 {
            newlines = newlines + 1;
        }
        at = at + 1;
    }
    if newlines < 3 {
        proof {
            assert(data@.take(at as int) =~= data@);
            lemma_no_data_start_without_three_newlines(data@);
        }
        return Err(CaptureError::new(ErrorKind::MalformedCaptureOutput, MSG_PIXMAP_INVALID));
    }
    proof {
        lemma_data_start_follows_third_newline(data@, at as int);
    }
    if data.len() - at < 3 {
        return Err(CaptureError::new(ErrorKind::MalformedCaptureOutput, MSG_PIXMAP_INVALID));
    }
    build_pixel_color(data[at], data[at + 1], data[at + 2])
}

/// Reads the first pixel of a raw image buffer in blue, green, red order.
pub fn parse_image_pixel(data: &[u8]) -> (out: Result<PixelColor, CaptureError>)
    ensures
        yields(out, image_sample(data@)),
{
    if data.len() < 3 {
        return Err(CaptureError::new(ErrorKind::MalformedCaptureOutput, MSG_IMAGE_PIXEL));
    }
    build_pixel_color(data[2], data[1], data[0])
}

} // verus!
