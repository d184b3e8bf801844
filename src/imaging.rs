//! The calls into the `image` crate and into `std::path`. The image calls
//! convert a `Raster` to the crate's `RgbaImage` and back. Each contract
//! states what the called code does and is taken on trust.

use vstd::prelude::*;

use crate::raster::Raster;

verus! {

#[verifier::external_type_specification]
#[verifier::external_body]
pub struct ExImageError(image::ImageError);

/// The PNG file that the `image` crate writes for an RGBA image of the given
/// size and channel bytes.
pub uninterp spec fn png_encoded(width: u32, height: u32, data: Seq<u8>) -> Seq<u8>;

/// The image that the `image` crate decodes from an encoded file, as its
/// width, height and RGBA channel bytes; `None` where decoding fails.
pub uninterp spec fn decoded_rgba(bytes: Seq<u8>) -> Option<(u32, u32, Seq<u8>)>;

/// Relies on `image::imageops::crop_imm` followed by `SubImage::to_image`:
/// the requested region is first clamped to the image (`crop_dimms`), then
/// copied pixel by pixel into a new buffer of exactly that size.
#[verifier::external_body]
pub(crate) fn crop_region(img: &Raster, x: u32, y: u32, width: u32, height: u32) -> (r: Raster)
    requires
        img.wf(),
    ensures
        r.wf(),
        r.width as int == vstd::math::min(
            width as int,
            img.width - vstd::math::min(x as int, img.width as int),
        ),
        r.height as int == vstd::math::min(
            height as int,
            img.height - vstd::math::min(y as int, img.height as int),
        ),
        forall|i: int, j: int|
            0 <= i < r.width && 0 <= j < r.height ==> #[trigger] r.pixel(i, j) == img.pixel(
                vstd::math::min(x as int, img.width as int) + i,
                vstd::math::min(y as int, img.height as int) + j,
            ),
{
    let buf = image::RgbaImage::from_raw(img.width, img.height, img.data.clone()).unwrap();
    let out = image::imageops::crop_imm(&buf, x, y, width, height).to_image();
    Raster { width: out.width(), height: out.height(), data: out.into_raw() }
}

/// Relies on `image::imageops::resize` with `FilterType::Lanczos3`: the
/// result always has the requested size, an image asked for at its own
/// non-empty size is copied unchanged, and an empty image gives a zeroed
/// buffer. The resampled values go through `f32` arithmetic and `f32::sin`,
/// whose precision std leaves open, so nothing more is stated of them. The sizes are bounded so that the
/// crate's buffers (the result and the intermediate one of `width` by
/// `new_height` pixels) can be allocated without overflow.
#[verifier::external_body]
pub(crate) fn resize_lanczos3(img: &Raster, new_width: u32, new_height: u32) -> (r: Raster)
    requires
        img.wf(),
        new_width as int * new_height as int * 4 <= usize::MAX,
        img.width as int * new_height as int * 4 <= usize::MAX,
    ensures
        r.wf(),
        r.width == new_width,
        r.height == new_height,
        (img.width == 0 || img.height == 0) ==> forall|i: int|
            0 <= i < r.data@.len() ==> #[trigger] r.data@[i] == 0,
        (img.width > 0 && img.height > 0 && new_width == img.width && new_height == img.height)
            ==> r.data@ == img.data@,
{
    let buf = image::RgbaImage::from_raw(img.width, img.height, img.data.clone()).unwrap();
    let out = image::imageops::resize(
        &buf,
        new_width,
        new_height,
        image::imageops::FilterType::Lanczos3,
    );
    Raster { width: out.width(), height: out.height(), data: out.into_raw() }
}

/// Relies on `ImageBuffer::write_to` with `ImageFormat::Png`: the PNG
/// encoder refuses a zero width or height and nothing else for 8-bit RGBA,
/// writing into a `Vec` cannot fail, and on success the bytes written are
/// the PNG encoding of the image.
#[verifier::external_body]
pub(crate) fn write_png(img: &Raster) -> (r: Result<Vec<u8>, image::ImageError>)
    requires
        img.wf(),
    ensures
        (img.width > 0 && img.height > 0) <==> r is Ok,
        r matches Ok(bytes) ==> bytes@ == png_encoded(img.width, img.height, img.data@),
{
    let buf = image::RgbaImage::from_raw(img.width, img.height, img.data.clone()).unwrap();
    let mut out = std::io::Cursor::new(Vec::new());
    match buf.write_to(&mut out, image::ImageFormat::Png) {
        Ok(()) => Ok(out.into_inner()),
        Err(e) => Err(e),
    }
}

/// Relies on `image::load_from_memory`, its result converted with
/// `DynamicImage::to_rgba8`: the width, the height and the RGBA channel
/// bytes of the decoded image, which depend on the input bytes alone.
#[verifier::external_body]
pub(crate) fn read_image(bytes: &[u8]) -> (r: Result<(u32, u32, Vec<u8>), image::ImageError>)
    ensures
        r is Ok <==> decoded_rgba(bytes@) is Some,
        r matches Ok((w, h, d)) ==> decoded_rgba(bytes@) == Some((w, h, d@)),
{
    match image::load_from_memory(bytes) {
        Ok(decoded) => {
            let rgba = decoded.to_rgba8();
            Ok((rgba.width(), rgba.height(), rgba.into_raw()))
        },
        Err(e) => Err(e),
    }
}

/// The directory that `Path::parent` gives for a path, as text.
pub uninterp spec fn path_parent(path: Seq<char>) -> Option<Seq<char>>;

/// The text of `base` joined with `part` by `Path::join`.
pub uninterp spec fn path_joined(base: Seq<char>, part: Seq<char>) -> Seq<char>;

/// Relies on `std::path::Path::parent`: the path without its final
/// component, read by path components; `None` where the path ends in a root
/// or is empty. The parent of text is text, so its conversion is exact.
#[verifier::external_body]
pub(crate) fn parent_of(path: &str) -> (r: Option<String>)
    ensures
        match r {
            Some(p) => path_parent(path@) == Some(p@),
            None => path_parent(path@) is None,
        },
{
    match std::path::Path::new(path).parent() {
        Some(p) => Some(p.to_string_lossy().into_owned()),
        None => None,
    }
}

/// Relies on `std::path::PathBuf::join` (through `Path::join`): `part`
/// appended to `base` as a further component.
#[verifier::external_body]
pub(crate) fn join_path(base: &str, part: &str) -> (r: String)
    ensures
        r@ == path_joined(base@, part@),
{
    std::path::Path::new(base).join(part).to_string_lossy().into_owned()
}

} // verus!
