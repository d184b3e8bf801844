//! Post-processing of an application icon: trimming the bottom and right
//! edges, turning a uniform background transparent, and producing square
//! resampled copies encoded as PNG.

pub mod background;
pub mod codec;
pub mod crop;
pub mod imaging;
pub mod paths;
pub mod raster;
pub mod resize;

pub use codec::IconError;
pub use raster::{Raster, Rgb, Rgba};
