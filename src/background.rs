//! Making a near-uniform background transparent: every pixel whose red,
//! green and blue channels each lie within a threshold of a reference color
//! becomes fully transparent; every other pixel is kept as it is.

use vstd::prelude::*;

use crate::codec::IconError;
use crate::raster::{pixel_of, Raster, Rgb, Rgba};

verus! {

/// Column of the pixel that is taken as the background color.
pub const SAMPLE_X: u32 = 5;

/// Row of the pixel that is taken as the background color.
pub const SAMPLE_Y: u32 = 5;

/// A channel closer than this to the reference counts as background.
pub const DEFAULT_THRESHOLD: u8 = 30;

/// The pixel that replaces background: every channel zero.
pub open spec fn transparent() -> Rgba {
    Rgba { r: 0, g: 0, b: 0, a: 0 }
}

/// Absolute difference of two channel values.
pub open spec fn channel_diff(a: u8, b: u8) -> int {
    if a >= b {
        a - b
    } else {
        b - a
    }
}

/// Whether each of the red, green and blue channels of `p` differs from the
/// reference by strictly less than `threshold`.
pub open spec fn is_background_spec(p: Rgba, reference: Rgb, threshold: u8) -> bool {
    channel_diff(p.r, reference.r) < threshold && channel_diff(p.g, reference.g) < threshold
        && channel_diff(p.b, reference.b) < threshold
}

/// What becomes of one pixel.
pub open spec fn classify_spec(p: Rgba, reference: Rgb, threshold: u8) -> Rgba {
    if is_background_spec(p, reference, threshold) {
        transparent()
    } else {
        p
    }
}

/// `out` is `src` with each pixel classified: same length, and pixel by
/// pixel the classification of the source pixel.
pub open spec fn is_removal(src: Seq<u8>, out: Seq<u8>, reference: Rgb, threshold: u8) -> bool {
    &&& out.len() == src.len()
    &&& forall|k: int|
        0 <= k < src.len() / 4 ==> #[trigger] pixel_of(out, k) == classify_spec(
            pixel_of(src, k),
            reference,
            threshold,
        )
}

/// The red, green and blue channels of the pixel in column `x` of row `y`.
pub open spec fn reference_at(img: Raster, x: int, y: int) -> Rgb {
    Rgb { r: img.pixel(x, y).r, g: img.pixel(x, y).g, b: img.pixel(x, y).b }
}

/// Classifying a pixel a second time, against the same reference color and
/// threshold, gives what the first classification gave: a transparent pixel
/// stays transparent and a kept pixel stays as it is.
pub proof fn lemma_classify_idempotent(p: Rgba, reference: Rgb, threshold: u8)
    ensures
        classify_spec(classify_spec(p, reference, threshold), reference, threshold)
            == classify_spec(p, reference, threshold),
{
}

/// Running the removal again on its own output, with the same reference
/// color and threshold, changes nothing.
pub proof fn lemma_removal_idempotent(
    src: Seq<u8>,
    once: Seq<u8>,
    twice: Seq<u8>,
    reference: Rgb,
    threshold: u8,
)
    requires
        src.len() % 4 == 0,
        is_removal(src, once, reference, threshold),
        is_removal(once, twice, reference, threshold),
    ensures
        twice == once,
{
    assert forall|i: int| 0 <= i < once.len() implies #[trigger] twice[i] == once[i] by {
        let k = i / 4;
        assert(0 <= k < src.len() / 4);
        lemma_classify_idempotent(pixel_of(src, k), reference, threshold);
        assert(pixel_of(twice, k) == pixel_of(once, k));
        assert(i == 4 * k || i == 4 * k + 1 || i == 4 * k + 2 || i == 4 * k + 3);
    }
    assert(twice =~= once);
}

fn abs_diff(a: u8, b: u8) -> (r: u8)
    ensures
        r as int == channel_diff(a, b),
{
    if a >= b {
        a - b
    } else {
        b - a
    }
}

/// Whether `p` is close enough to `reference` to count as background.
pub fn is_background(p: Rgba, reference: Rgb, threshold: u8) -> (r: bool)
    ensures
        r == is_background_spec(p, reference, threshold),
{
    abs_diff(p.r, reference.r) < threshold && abs_diff(p.g, reference.g) < threshold && abs_diff(
        p.b,
        reference.b,
    ) < threshold
}

/// The pixel that `p` becomes: transparent where it is background, itself
/// otherwise.
pub fn classify_pixel(p: Rgba, reference: Rgb, threshold: u8) -> (r: Rgba)
    ensures
        r == classify_spec(p, reference, threshold),
{
    if is_background(p, reference, threshold) {
        Rgba { r: 0, g: 0, b: 0, a: 0 }
    } else {
        p
    }
}

/// The red, green and blue channels of the pixel in column `x` of row `y`;
/// `None` outside the image.
pub fn sample_reference(img: &Raster, x: u32, y: u32) -> (r: Option<Rgb>)
    requires
        img.wf(),
    ensures
        (x < img.width && y < img.height) <==> r is Some,
        r matches Some(c) ==> c == reference_at(*img, x as int, y as int),
{
    match img.get_pixel(x, y) {
        Some(p) => Some(Rgb { r: p.r, g: p.g, b: p.b }),
        None => None,
    }
}

/// A new image of the same size in which every background pixel is
/// transparent and every other pixel is copied unchanged, alpha included.
pub fn remove_background(img: &Raster, reference: Rgb, threshold: u8) -> (r: Raster)
    requires
        img.wf(),
    ensures
        r.wf(),
        r.width == img.width,
        r.height == img.height,
        is_removal(img.data@, r.data@, reference, threshold),
        forall|x: int, y: int|
            0 <= x < img.width && 0 <= y < img.height ==> #[trigger] r.pixel(x, y)
                == classify_spec(img.pixel(x, y), reference, threshold),
{
    let n: usize = img.data.len();
    let npix: usize = n / 4;
    let mut out: Vec<u8> = Vec::with_capacity(n);
    let mut k: usize = 0;
    while k < npix
        invariant
            n == img.data@.len(),
            n % 4 == 0,
            npix == n / 4,
            k <= npix,
            out@.len() == 4 * k,
            forall|j: int|
                0 <= j < k ==> #[trigger] pixel_of(out@, j) == classify_spec(
                    pixel_of(img.data@, j),
                    reference,
                    threshold,
                ),
        decreases npix - k,
    {
        let i: usize = 4 * k;
        let p = Rgba {
            r: img.data[i],
            g: img.data[i + 1],
            b: img.data[i + 2],
            a: img.data[i + 3],
        };
        let q = classify_pixel(p, reference, threshold);
        let ghost before = out@;
        out.push(q.r);
        out.push(q.g);
        out.push(q.b);
        out.push(q.a);
        proof {
            assert forall|j: int| 0 <= j < k + 1 implies #[trigger] pixel_of(out@, j)
                == classify_spec(pixel_of(img.data@, j), reference, threshold) by {
                if j < k {
                    assert(pixel_of(out@, j) == pixel_of(before, j));
                }
            }
        }
        k = k + 1;
    }
    let r = Raster { width: img.width, height: img.height, data: out };
    proof {
        assert forall|x: int, y: int|
            0 <= x < img.width && 0 <= y < img.height implies #[trigger] r.pixel(x, y)
                == classify_spec(img.pixel(x, y), reference, threshold) by {
            let w = img.width as int;
            let h = img.height as int;
            assert(0 <= y * w + x < h * w) by (nonlinear_arith)
                requires
                    0 <= x < w,
                    0 <= y < h,
            ;
            assert(h * w == img.pixel_count()) by (nonlinear_arith)
                requires
                    h == img.height as int,
                    w == img.width as int,
            ;
        }
    }
    r
}

/// The icon with its background made transparent: the reference color is
/// sampled at (`SAMPLE_X`, `SAMPLE_Y`) and compared with
/// `DEFAULT_THRESHOLD`. Fails where that pixel lies outside the image.
pub fn remove_icon_background(img: &Raster) -> (r: Result<Raster, IconError>)
    requires
        img.wf(),
    ensures
        (SAMPLE_X < img.width && SAMPLE_Y < img.height) <==> r is Ok,
        r matches Ok(out) ==> {
            &&& out.wf()
            &&& out.width == img.width
            &&& out.height == img.height
            &&& is_removal(
                img.data@,
                out.data@,
                reference_at(*img, SAMPLE_X as int, SAMPLE_Y as int),
                DEFAULT_THRESHOLD,
            )
        },
        r matches Err(e) ==> e is SampleOutsideImage,
{
    match sample_reference(img, SAMPLE_X, SAMPLE_Y) {
        Some(reference) => Ok(remove_background(img, reference, DEFAULT_THRESHOLD)),
        None => Err(IconError::SampleOutsideImage),
    }
}

} // verus!
