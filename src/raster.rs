//! An RGBA image held as plain values: a width, a height and the pixels'
//! channels in row-major order, four bytes per pixel.

use vstd::prelude::*;

verus! {

/// A pixel with red, green, blue and alpha channels.
#[derive(Clone, Copy, Debug, PartialEq, Eq, Structural)]
pub struct Rgba {
    pub r: u8,
    pub g: u8,
    pub b: u8,
    pub a: u8,
}

/// A color with red, green and blue channels.
#[derive(Clone, Copy, Debug, PartialEq, Eq, Structural)]
pub struct Rgb {
    pub r: u8,
    pub g: u8,
    pub b: u8,
}

/// The `k`-th pixel of a row-major buffer of four-byte pixels.
pub open spec fn pixel_of(data: Seq<u8>, k: int) -> Rgba {
    Rgba { r: data[4 * k], g: data[4 * k + 1], b: data[4 * k + 2], a: data[4 * k + 3] }
}

/// An image of `width` by `height` RGBA pixels.
#[derive(Debug)]
pub struct Raster {
    pub width: u32,
    pub height: u32,
    pub data: Vec<u8>,
}

impl Raster {
    /// The buffer holds exactly four bytes for each pixel.
    pub open spec fn wf(&self) -> bool {
        self.data@.len() == self.width as int * self.height as int * 4
    }

    /// The number of pixels.
    pub open spec fn pixel_count(&self) -> int {
        self.width as int * self.height as int
    }

    /// The pixel in column `x` of row `y`.
    pub open spec fn pixel(&self, x: int, y: int) -> Rgba {
        pixel_of(self.data@, y * self.width as int + x)
    }

    /// Builds an image from its channel bytes; `None` unless there are
    /// exactly four bytes for each of the `width * height` pixels.
    pub fn from_raw(width: u32, height: u32, data: Vec<u8>) -> (r: Option<Raster>)
        ensures
            (data@.len() == width as int * height as int * 4) <==> r is Some,
            r matches Some(img) ==> img.wf() && img.width == width && img.height == height
                && img.data@ == data@,
    {
        proof {
            let (wi, hi) = (width as int, height as int);
            assert(wi * hi <= 0xffff_ffff * 0xffff_ffff) by (nonlinear_arith)
                requires
                    0 <= wi <= 0xffff_ffff,
                    0 <= hi <= 0xffff_ffff,
            ;
        }
        let needed: u128 = (width as u128) * (height as u128) * 4;
        if data.len() as u128 == needed {
            Some(Raster { width, height, data })
        } else {
            None
        }
    }

    /// The pixel in column `x` of row `y`; `None` outside the image.
    pub fn get_pixel(&self, x: u32, y: u32) -> (r: Option<Rgba>)
        requires
            self.wf(),
        ensures
            (x < self.width && y < self.height) <==> r is Some,
            r matches Some(p) ==> p == self.pixel(x as int, y as int),
    {
        if x < self.width && y < self.height {
            let w = self.width as usize;
            let h = self.height as usize;
            let n: usize = self.data.len();
            proof {
                let xi = x as int;
                let yi = y as int;
                let wi = w as int;
                let hi = h as int;
                assert(yi * wi + xi < hi * wi) by (nonlinear_arith)
                    requires
                        xi < wi,
                        yi < hi,
                        0 <= xi,
                        0 <= yi,
                ;
                assert(yi * wi >= 0) by (nonlinear_arith)
                    requires
                        0 <= yi,
                        0 <= wi,
                ;
                assert(hi * wi == self.pixel_count()) by (nonlinear_arith)
                    requires
                        hi == self.height as int,
                        wi == self.width as int,
                ;
                assert(self.data@.len() == n as int);
            }
            let k: usize = (y as usize) * w + (x as usize);
            let i: usize = 4 * k;
            Some(
                Rgba {
                    r: self.data[i],
                    g: self.data[i + 1],
                    b: self.data[i + 2],
                    a: self.data[i + 3],
                },
            )
        } else {
            None
        }
    }
}

} // verus!
