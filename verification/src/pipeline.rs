use vstd::prelude::*;

use crate::codec::{decode_image, decoded_view, encode_image, encoded_for_path, rgba_decode_of,
    save_error_text, zero_dim_text};
use crate::crop::{apply_circular_crop, crop_view};
use crate::error::CropError;
use crate::img::{raw_of_pixels, Image};

verus! {

/// What the compute stages of the pipeline owe for given downloaded bytes
/// and output path: the encoded output file's bytes and the cropped image,
/// or the first stage's error.
pub open spec fn pipeline_spec(bytes: Seq<u8>, path: Seq<char>, r: Result<
    (Vec<u8>, Image),
    CropError,
>) -> bool {
    match rgba_decode_of(bytes) {
        Err(msg) => r matches Err(e) && e matches CropError::ImageDecodeError(m) && m@ == msg,
        Ok((w, h, raw)) => if w >= 1 && h >= 1 {
            let cropped = crop_view(decoded_view(w, h, raw));
            match encoded_for_path(cropped.width, cropped.height, raw_of_pixels(cropped.pixels), path) {
                Ok(file) => r matches Ok(p) && p.0@ == file && p.1.wf() && p.1@ == cropped,
                Err(msg) => r matches Err(e) && e matches CropError::FileWriteError(m) && m@
                    == save_error_text(path, msg),
            }
        } else {
            r matches Err(e) && e matches CropError::ImageDecodeError(m) && m@ == zero_dim_text()
        },
    }
}

/// Runs the compute stages of the pipeline on downloaded bytes, in order:
/// decode the bytes, crop the image to a circle, encode the result for the
/// output path. Returns the encoded file's bytes together with the cropped
/// image, whose raw bytes are the clipboard payload; the first failing
/// stage's error aborts the run, exactly as `pipeline_spec` states.
pub fn run_pipeline(bytes: &Vec<u8>, output_path: &str) -> (r: Result<(Vec<u8>, Image), CropError>)
    ensures
        pipeline_spec(bytes@, output_path@, r),
{
    let img = match decode_image(bytes) {
        Ok(img) => img,
        Err(e) => {
            return Err(e);
        },
    };
    let cropped = apply_circular_crop(&img);
    let file = match encode_image(&cropped, output_path) {
        Ok(file) => file,
        Err(e) => {
            return Err(e);
        },
    };
    Ok((file, cropped))
}

} // verus!
