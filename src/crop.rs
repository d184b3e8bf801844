//! Trimming a fixed share of the width off the bottom and right edges of a
//! square icon, keeping the top-left corner in place.

use vstd::prelude::*;

use crate::imaging::crop_region;
use crate::raster::Raster;

verus! {

/// Percentage of the width that is trimmed.
pub const TRIM_PERCENT: u32 = 8;

/// The number of pixels trimmed from an image `width` pixels wide: eight
/// percent of it, rounded down.
pub open spec fn trim_spec(width: u32) -> int {
    width as int * TRIM_PERCENT as int / 100
}

/// The edge length that remains after trimming.
pub open spec fn edge_spec(width: u32) -> int {
    width - trim_spec(width)
}

/// Eight percent of `width`, rounded down.
pub fn trim_pixels(width: u32) -> (r: u32)
    ensures
        r == trim_spec(width),
{
    assert(TRIM_PERCENT == 8);
    ((width as u64) * 8 / 100) as u32
}

/// The edge length of the trimmed square.
pub fn cropped_edge(width: u32) -> (r: u32)
    ensures
        r == edge_spec(width),
        r <= width,
{
    width - trim_pixels(width)
}

/// The top-left square of the image whose edge is the trimmed width. The
/// result is as wide as that edge; it is as tall too where the image is, as
/// for a square image, and otherwise as tall as the image.
pub fn crop_icon(img: &Raster) -> (r: Raster)
    requires
        img.wf(),
    ensures
        r.wf(),
        r.width == edge_spec(img.width),
        r.height == vstd::math::min(edge_spec(img.width), img.height as int),
        img.width == img.height ==> r.width == r.height,
        forall|x: int, y: int|
            0 <= x < r.width && 0 <= y < r.height ==> #[trigger] r.pixel(x, y) == img.pixel(x, y),
{
    let edge = cropped_edge(img.width);
    let r = crop_region(img, 0, 0, edge, edge);
    assert forall|x: int, y: int| 0 <= x < r.width && 0 <= y < r.height implies #[trigger] r.pixel(
        x,
        y,
    ) == img.pixel(x, y) by {
        assert(r.pixel(x, y) == img.pixel(0 + x, 0 + y));
    }
    r
}

} // verus!
