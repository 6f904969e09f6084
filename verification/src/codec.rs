use vstd::prelude::*;

use crate::error::CropError;
use crate::img::{pixels_of_raw, Image, ImageView};

verus! {

/// What decoding a byte sequence to 4-channel RGBA yields: either the
/// dimensions with the raw RGBA bytes, or the codec's error message. The
/// codec is deterministic, so the result is a function of the bytes alone;
/// no short statement can say which, so it only gets this name.
pub uninterp spec fn rgba_decode_of(bytes: Seq<u8>) -> Result<(u32, u32, Seq<u8>), Seq<char>>;

/// Relies on image::load_from_memory to sniff the container format and
/// decode, and on image::DynamicImage::to_rgba8 to normalize the result to
/// 4-channel RGBA (synthesizing an opaque alpha channel if the source had
/// none). The raw buffer of an RGBA image buffer holds exactly
/// width * height * 4 bytes.
#[verifier::external_body]
fn decode_rgba(bytes: &Vec<u8>) -> (r: Result<(u32, u32, Vec<u8>), String>)
    ensures
        (match r {
            Ok((w, h, raw)) => rgba_decode_of(bytes@) == Ok::<_, Seq<char>>((w, h, raw@))
                && raw@.len() == w as int * h as int * 4,
            Err(m) => rgba_decode_of(bytes@) == Err::<(u32, u32, Seq<u8>), _>(m@),
        }),
{
    match image::load_from_memory(bytes) {
        Ok(decoded) => {
            let rgba = decoded.to_rgba8();
            let (w, h) = rgba.dimensions();
            Ok((w, h, rgba.into_raw()))
        },
        Err(e) => Err(e.to_string()),
    }
}

/// The message carried by the decode error for images with a zero
/// dimension, which the decoder rejects rather than handing them on.
pub open spec fn zero_dim_text() -> Seq<char> {
    "decoded image has a zero dimension"@
}

/// The image model that a successful decode yields.
pub open spec fn decoded_view(w: u32, h: u32, raw: Seq<u8>) -> ImageView {
    ImageView { width: w, height: h, pixels: pixels_of_raw(raw) }
}

/// Turns downloaded bytes into a well-formed RGBA image. Fails with
/// `ImageDecodeError` exactly when the codec rejects the bytes (carrying
/// the codec's message) or when the decoded image has a zero dimension.
pub fn decode_image(bytes: &Vec<u8>) -> (r: Result<Image, CropError>)
    ensures
        (match rgba_decode_of(bytes@) {
            Ok((w, h, raw)) => {
                if w >= 1 && h >= 1 {
                    r matches Ok(img) && img.wf() && img@ == decoded_view(w, h, raw)
                } else {
                    r matches Err(e) && e matches CropError::ImageDecodeError(m) && m@
                        == zero_dim_text()
                }
            },
            Err(msg) => r matches Err(e) && e matches CropError::ImageDecodeError(m) && m@ == msg,
        }),
{
    match decode_rgba(bytes) {
        Ok((w, h, raw)) => {
            if w >= 1 && h >= 1 {
                let pixels = crate::img::pixels_from_raw(&raw);
                proof {
                    assert((w as int * h as int * 4) / 4 == w as int * h as int) by (nonlinear_arith);
                    assert(pixels@.len() == w as int * h as int);
                }
                match Image::new(w, h, pixels) {
                    Some(img) => Ok(img),
                    None => vstd::pervasive::unreached(),
                }
            } else {
                Err(CropError::ImageDecodeError("decoded image has a zero dimension".to_owned()))
            }
        },
        Err(m) => Err(CropError::ImageDecodeError(m)),
    }
}

/// What encoding an RGBA image for an output path yields: either the bytes
/// of the encoded file, in the format the path's extension selects, or the
/// codec's error message (in particular for an unrecognized extension).
/// The encoders are deterministic, so the result is a function of the
/// arguments alone; it only gets this name.
pub uninterp spec fn encoded_for_path(w: u32, h: u32, raw: Seq<u8>, path: Seq<char>) -> Result<
    Seq<u8>,
    Seq<char>,
>;

/// Relies on image::ImageFormat::from_path to pick the output format from
/// the path's extension (erring on an unrecognized or missing extension),
/// on image::RgbaImage::from_raw to view the raw bytes as an image (which
/// accepts them, since they hold exactly width * height * 4 bytes), and on
/// image::ImageBuffer::write_to to encode.
#[verifier::external_body]
fn encode_rgba(w: u32, h: u32, raw: &Vec<u8>, path: &str) -> (r: Result<Vec<u8>, String>)
    requires
        raw@.len() == w as int * h as int * 4,
    ensures
        (match r {
            Ok(file) => encoded_for_path(w, h, raw@, path@) == Ok::<_, Seq<char>>(file@),
            Err(m) => encoded_for_path(w, h, raw@, path@) == Err::<Seq<u8>, _>(m@),
        }),
{
    let format = match image::ImageFormat::from_path(path) {
        Ok(f) => f,
        Err(e) => return Err(e.to_string()),
    };
    let buffer = image::RgbaImage::from_raw(w, h, raw.clone()).unwrap();
    let mut cursor = std::io::Cursor::new(Vec::new());
    match buffer.write_to(&mut cursor, format) {
        Ok(()) => Ok(cursor.into_inner()),
        Err(e) => Err(e.to_string()),
    }
}

/// The message carried by the file-write error: the target path embedded
/// beside the underlying codec message.
pub open spec fn save_error_text(path: Seq<char>, detail: Seq<char>) -> Seq<char> {
    "Failed to save to '"@ + path + "': "@ + detail
}

/// Relies on the format! macro of std: with the `{}` specifier it splices
/// each string argument into the literal text unchanged.
#[verifier::external_body]
fn save_error_message(path: &str, detail: &str) -> (r: String)
    ensures
        r@ == save_error_text(path@, detail@),
{
    format!("Failed to save to '{}': {}", path, detail)
}

/// Encodes the image into the bytes of an output file in the format the
/// path's extension selects. Fails with `FileWriteError` exactly when the
/// codec refuses the path or the encode, with the path and the underlying
/// message embedded in the error.
pub fn encode_image(img: &Image, path: &str) -> (r: Result<Vec<u8>, CropError>)
    requires
        img.wf(),
    ensures
        (match encoded_for_path(
            img@.width,
            img@.height,
            crate::img::raw_of_pixels(img@.pixels),
            path@,
        ) {
            Ok(file) => r matches Ok(v) && v@ == file,
            Err(msg) => r matches Err(e) && e matches CropError::FileWriteError(m) && m@
                == save_error_text(path@, msg),
        }),
{
    let raw = img.to_rgba_bytes();
    proof {
        crate::img::lemma_raw_of_pixels_len(img@.pixels);
    }
    match encode_rgba(img.width(), img.height(), &raw, path) {
        Ok(file) => Ok(file),
        Err(m) => Err(CropError::FileWriteError(save_error_message(path, m.as_str()))),
    }
}

} // verus!
