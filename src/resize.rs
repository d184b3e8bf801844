//! Square copies of an image at each of a list of sizes.

use vstd::prelude::*;

use crate::imaging::resize_lanczos3;
use crate::raster::Raster;

verus! {

/// Whether an image `width` pixels wide can be resampled to a square of
/// edge `size` with every buffer fitting in memory's address range.
pub open spec fn resize_fits(width: u32, size: u32) -> bool {
    &&& size as int * size as int * 4 <= usize::MAX
    &&& width as int * size as int * 4 <= usize::MAX
}

/// The edge lengths of the square copies that are written beside the
/// full-size icon.
pub fn target_sizes() -> (r: Vec<u32>)
    ensures
        r@ == seq![512u32, 1024u32],
{
    vec![512u32, 1024u32]
}

/// The image resampled with a three-lobe Lanczos filter to `size` by `size`
/// pixels, whatever its own proportions.
pub fn resize_square(img: &Raster, size: u32) -> (r: Raster)
    requires
        img.wf(),
        resize_fits(img.width, size),
    ensures
        r.wf(),
        r.width == size,
        r.height == size,
        (img.width == size && img.height == size && size > 0) ==> r.data@ == img.data@,
        (img.width == 0 || img.height == 0) ==> forall|i: int|
            0 <= i < r.data@.len() ==> #[trigger] r.data@[i] == 0,
{
    resize_lanczos3(img, size, size)
}

/// One square copy of the image for each size, in the order of `sizes`.
pub fn resize_variants(img: &Raster, sizes: &Vec<u32>) -> (r: Vec<Raster>)
    requires
        img.wf(),
        forall|i: int| 0 <= i < sizes@.len() ==> resize_fits(img.width, #[trigger] sizes@[i]),
    ensures
        r@.len() == sizes@.len(),
        forall|i: int|
            0 <= i < sizes@.len() ==> {
                &&& (#[trigger] r@[i]).wf()
                &&& r@[i].width == sizes@[i]
                &&& r@[i].height == sizes@[i]
            },
{
    let mut out: Vec<Raster> = Vec::new();
    let mut i: usize = 0;
    while i < sizes.len()
        invariant
            img.wf(),
            forall|j: int| 0 <= j < sizes@.len() ==> resize_fits(img.width, #[trigger] sizes@[j]),
            i <= sizes@.len(),
            out@.len() == i,
            forall|j: int|
                0 <= j < i ==> {
                    &&& (#[trigger] out@[j]).wf()
                    &&& out@[j].width == sizes@[j]
                    &&& out@[j].height == sizes@[j]
                },
        decreases sizes@.len() - i,
    {
        let size = sizes[i];
        let copy = resize_square(img, size);
        out.push(copy);
        i = i + 1;
    }
    out
}

/// The 512 by 512 copy and then the 1024 by 1024 copy of any image; `None`
/// only where those buffers could not be addressed, which needs an image
/// wider than the address range allows for (never with 64-bit sizes).
pub fn resize_targets(img: &Raster) -> (r: Option<Vec<Raster>>)
    requires
        img.wf(),
    ensures
        r is Some <==> resize_fits(img.width, 1024),
        r matches Some(v) ==> {
            &&& v@.len() == 2
            &&& v@[0].wf() && v@[0].width == 512 && v@[0].height == 512
            &&& v@[1].wf() && v@[1].width == 1024 && v@[1].height == 1024
        },
{
    let fits = (img.width as u128) * 1024 * 4 <= usize::MAX as u128 && 1024u128 * 1024 * 4
        <= usize::MAX as u128;
    if !fits {
        return None;
    }
    let sizes = target_sizes();
    assert forall|i: int| 0 <= i < sizes@.len() implies resize_fits(
        img.width,
        #[trigger] sizes@[i],
    ) by {
        assert(sizes@[i] == 512 || sizes@[i] == 1024);
    }
    Some(resize_variants(img, &sizes))
}

} // verus!
