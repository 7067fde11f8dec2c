//! Byte encodings of images: PNG files and their Base64 text.

use vstd::prelude::*;
use base64::Engine;
use image::{DynamicImage, ImageFormat, RgbaImage};
use std::io::Cursor;

verus! {

/// The PNG file that the `image` crate writes for `width * height` RGBA
/// pixels, or `None` when it refuses them.
pub uninterp spec fn png_encoding(width: u32, height: u32, rgba: Seq<u8>) -> Option<Seq<u8>>;

/// Encodes `width * height` RGBA pixels as a PNG file in memory
/// (`RgbaImage::from_raw`, then `DynamicImage::write_to` with
/// `ImageFormat::Png` into a `Cursor<Vec<u8>>`).  Claims: whether it
/// succeeds and what it writes depend on the arguments alone (writing to
/// memory cannot fail), so the result read as an `Option` is
/// `png_encoding` of the arguments; like every `Vec` the bytes number at
/// most `isize::MAX`.  The text of a failure is the encoder's message, of
/// which nothing is claimed.
#[verifier::external_body]
pub(crate) fn encode_png(width: u32, height: u32, rgba: &[u8]) -> (r: Result<Vec<u8>, String>)
    requires
        rgba@.len() == width * height * 4,
    ensures
        match r {
            Ok(bytes) => png_encoding(width, height, rgba@) == Some(bytes@) && bytes@.len()
                <= isize::MAX,
            Err(_) => png_encoding(width, height, rgba@) is None,
        },
{
    let image = RgbaImage::from_raw(width, height, rgba.to_vec())
        .ok_or_else(|| "invalid RGBA buffer dimensions".to_owned())?;
    let mut cursor = Cursor::new(Vec::new());
    DynamicImage::ImageRgba8(image)
        .write_to(&mut cursor, ImageFormat::Png)
        .map_err(|error| error.to_string())?;
    Ok(cursor.into_inner())
}

/// The character of the standard Base64 alphabet for the six-bit value `v`.
pub open spec fn base64_digit(v: int) -> char {
    if v < 26 {
        (65 + v) as char
    } else if v < 52 {
        (71 + v) as char
    } else if v < 62 {
        (v - 4) as char
    } else if v == 62 {
        '+'
    } else {
        '/'
    }
}

/// Standard Base64 with `=` padding (RFC 4648): each three bytes become
/// four characters, and a final one or two bytes become four characters
/// ending in padding.
pub open spec fn base64_standard(b: Seq<u8>) -> Seq<char>
    decreases b.len(),
{
    if b.len() == 0 {
        Seq::empty()
    } else if b.len() == 1 {
        seq![base64_digit((b[0] / 4) as int), base64_digit((b[0] % 4) * 16), '=', '=']
    } else if b.len() == 2 {
        seq![
            base64_digit((b[0] / 4) as int),
            base64_digit((b[0] % 4) * 16 + b[1] / 16),
            base64_digit((b[1] % 16) * 4),
            '=',
        ]
    } else {
        seq![
            base64_digit((b[0] / 4) as int),
            base64_digit((b[0] % 4) * 16 + b[1] / 16),
            base64_digit((b[1] % 16) * 4 + b[2] / 64),
            base64_digit((b[2] % 64) as int),
        ] + base64_standard(b.skip(3))
    }
}

/// Encodes `bytes` as standard Base64 with padding
/// (`base64::engine::general_purpose::STANDARD.encode`).  Claims: the
/// result is the RFC 4648 encoding that the crate documents for this
/// engine.  Inputs so long that the output length overflows make the crate
/// panic; they are left out.
#[verifier::external_body]
pub(crate) fn base64_encode(bytes: &[u8]) -> (r: String)
    requires
        bytes@.len() <= usize::MAX / 2,
    ensures
        r@ == base64_standard(bytes@),
{
    base64::engine::general_purpose::STANDARD.encode(bytes)
}

} // verus!
