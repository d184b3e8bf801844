//! PNG output and image input as bytes, with the library's own error type.

use vstd::prelude::*;

use crate::imaging::{decoded_rgba, png_encoded, read_image, write_png};
use crate::raster::Raster;

verus! {

/// What can go wrong while processing an icon.
#[derive(Debug)]
pub enum IconError {
    /// The image codec failed to encode or decode.
    Codec(image::ImageError),
    /// The decoded buffer does not hold four bytes for each pixel.
    MalformedBuffer,
    /// The pixel sampled for the background color lies outside the image.
    SampleOutsideImage,
}

/// The image encoded as a PNG file; this fails exactly for an image with
/// no pixels.
pub fn encode_png(img: &Raster) -> (r: Result<Vec<u8>, IconError>)
    requires
        img.wf(),
    ensures
        (img.width > 0 && img.height > 0) <==> r is Ok,
        r matches Ok(bytes) ==> bytes@ == png_encoded(img.width, img.height, img.data@),
        r matches Err(e) ==> e is Codec,
{
    match write_png(img) {
        Ok(bytes) => Ok(bytes),
        Err(e) => Err(IconError::Codec(e)),
    }
}

/// The image held in an encoded file, as RGBA pixels. It fails with
/// `Codec` where the file does not decode, and with `MalformedBuffer` where
/// the decoded buffer does not hold four bytes for each pixel.
pub fn decode_image(bytes: &[u8]) -> (r: Result<Raster, IconError>)
    ensures
        r matches Ok(img) ==> img.wf() && decoded_rgba(bytes@) == Some(
            (img.width, img.height, img.data@),
        ),
        (decoded_rgba(bytes@) matches Some((w, h, d)) && d.len() == w as int * h as int * 4)
            ==> r is Ok,
        decoded_rgba(bytes@) is None ==> r matches Err(IconError::Codec(_)),
        r matches Err(e) ==> e is Codec || e is MalformedBuffer,
{
    match read_image(bytes) {
        Ok((width, height, data)) => match Raster::from_raw(width, height, data) {
            Some(img) => Ok(img),
            None => Err(IconError::MalformedBuffer),
        },
        Err(e) => Err(IconError::Codec(e)),
    }
}

} // verus!
