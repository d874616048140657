use vstd::prelude::*;
use vstd::utf8::*;

use crate::text::hex_digit_char;

verus! {

#[verifier::external_type_specification]
#[verifier::external_body]
pub struct ExJsonValue(serde_json::Value);

#[verifier::external_type_specification]
#[verifier::external_body]
pub struct ExJsonError(serde_json::Error);

#[verifier::external_type_specification]
#[verifier::external_body]
pub struct ExDynamicImage(image::DynamicImage);

#[verifier::external_type_specification]
#[verifier::external_body]
pub struct ExImageError(image::ImageError);

#[verifier::external_type_specification]
#[verifier::external_body]
pub struct ExUtf8Error(core::str::Utf8Error);

/// The error that `std::str::from_utf8` reports for bytes that are not
/// valid UTF-8.
pub uninterp spec fn utf8_error_of(bytes: Seq<u8>) -> core::str::Utf8Error;

/// What `serde_json` reads from the text as a `serde_json::Value`: the
/// value, or the error that locates the fault.
pub uninterp spec fn json_parse_result(text: Seq<char>) -> Result<
    serde_json::Value,
    serde_json::Error,
>;

/// What the `image` crate, guessing the format from the leading bytes,
/// decodes from the bytes.
pub uninterp spec fn image_decode_result(bytes: Seq<u8>) -> Result<
    image::DynamicImage,
    image::ImageError,
>;

/// What the `image` crate writes for the image as PNG: the bytes, or the
/// error for an image that PNG cannot hold.
pub uninterp spec fn png_encode_result(img: image::DynamicImage) -> Result<
    Seq<u8>,
    image::ImageError,
>;

/// The text holds one JSON document.
pub open spec fn is_json_document(text: Seq<char>) -> bool {
    json_parse_result(text) is Ok
}

/// The bytes decode to an image.
pub open spec fn decodes_as_image(bytes: Seq<u8>) -> bool {
    image_decode_result(bytes) is Ok
}

/// How a character stands inside a JSON string: quote and backslash escaped
/// by a backslash; backspace, tab, line feed, form feed and carriage return
/// as `\b`, `\t`, `\n`, `\f`, `\r`; the other control characters below
/// U+0020 as `\u00xx`; everything else as itself.
pub open spec fn json_escaped_char(c: char) -> Seq<char> {
    let n = c as u32;
    if c == '"' {
        seq!['\\', '"']
    } else if c == '\\' {
        seq!['\\', '\\']
    } else if n == 0x08 {
        seq!['\\', 'b']
    } else if n == 0x09 {
        seq!['\\', 't']
    } else if n == 0x0a {
        seq!['\\', 'n']
    } else if n == 0x0c {
        seq!['\\', 'f']
    } else if n == 0x0d {
        seq!['\\', 'r']
    } else if n < 0x20 {
        seq!['\\', 'u', '0', '0', hex_digit_char((n / 16) as int), hex_digit_char((n % 16) as int)]
    } else {
        seq![c]
    }
}

/// Each character of the text as it stands inside a JSON string.
pub open spec fn json_escaped(text: Seq<char>) -> Seq<char>
    decreases text.len(),
{
    if text.len() == 0 {
        Seq::empty()
    } else {
        json_escaped(text.drop_last()) + json_escaped_char(text.last())
    }
}

/// The JSON string literal for the text: its escaped characters in quotes.
pub open spec fn json_string_literal(text: Seq<char>) -> Seq<char> {
    seq!['"'] + json_escaped(text) + seq!['"']
}

/// Relies on `std::str::from_utf8`: the bytes are accepted exactly when they
/// are valid UTF-8, and then read as the characters they encode.
#[verifier::external_body]
pub(crate) fn utf8_text(bytes: &[u8]) -> (r: Result<&str, core::str::Utf8Error>)
    ensures
        r is Ok <==> valid_utf8(bytes@),
        r is Ok ==> r->Ok_0@ == decode_utf8(bytes@),
        r is Err ==> r->Err_0 == utf8_error_of(bytes@),
{
    std::str::from_utf8(bytes)
}

/// Relies on `serde_json::from_str`, read into a `serde_json::Value`; its
/// result depends on the text alone.
#[verifier::external_body]
pub(crate) fn parse_json(text: &str) -> (r: Result<serde_json::Value, serde_json::Error>)
    ensures
        r == json_parse_result(text@),
{
    serde_json::from_str::<serde_json::Value>(text)
}

/// Relies on `serde_json::to_string` on a `str`, which writes a JSON string
/// literal by the escape table of `serde_json::ser`. It writes into a `Vec`,
/// which cannot fail, so the default is never taken.
#[verifier::external_body]
pub(crate) fn json_string(text: &str) -> (r: String)
    ensures
        r@ == json_string_literal(text@),
{
    serde_json::to_string(text).unwrap_or_default()
}

/// Relies on `image::io::Reader::with_guessed_format` and `decode` over the
/// bytes in memory. With the crate's `png` and `gif` features alone, `decode`
/// reaches `codecs::png::PngDecoder` (over the `png` crate) or
/// `codecs::gif::GifDecoder` (over the `gif` crate); every other format, and
/// bytes of no known format, come back as `ImageError::Unsupported`. A read
/// error while guessing the format is returned in the `image` crate's own
/// variant for it, `ImageError::IoError`.
#[verifier::external_body]
pub(crate) fn decode_image(bytes: &[u8]) -> (r: Result<image::DynamicImage, image::ImageError>)
    ensures
        r == image_decode_result(bytes@),
{
    let cursor = std::io::Cursor::new(bytes);
    match image::io::Reader::new(cursor).with_guessed_format() {
        Ok(reader) => reader.decode(),
        Err(e) => Err(image::ImageError::IoError(e)),
    }
}

/// Relies on `image::DynamicImage::write_to` with `ImageFormat::Png`, writing
/// into memory; its error is returned as it came.
#[verifier::external_body]
pub(crate) fn encode_png(img: &image::DynamicImage) -> (r: Result<Vec<u8>, image::ImageError>)
    ensures
        r is Ok <==> png_encode_result(*img) is Ok,
        r is Ok ==> r->Ok_0@ == png_encode_result(*img)->Ok_0,
        r is Err ==> png_encode_result(*img) == Err::<Seq<u8>, image::ImageError>(r->Err_0),
{
    let mut buf = std::io::Cursor::new(Vec::new());
    match img.write_to(&mut buf, image::ImageFormat::Png) {
        Ok(()) => Ok(buf.into_inner()),
        Err(e) => Err(e),
    }
}

} // verus!
