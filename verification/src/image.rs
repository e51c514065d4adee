//! The raster image type that enters the conversion pipeline: a row-major
//! grid of RGBA color values, four bytes per pixel.

use vstd::prelude::*;

verus! {

/// A raster image: `width * height` pixels in row-major order, each pixel
/// four bytes (red, green, blue, alpha). The pipeline only reads it.
pub struct Image {
    pub width: u32,
    pub height: u32,
    pub pixels: Vec<u8>,
}

impl Image {
    /// The pixel buffer holds exactly four bytes for every pixel.
    pub open spec fn wf(self) -> bool {
        self.pixels@.len() == 4 * self.width * self.height
    }

    /// Number of pixels in the image.
    pub open spec fn px_count(self) -> int {
        self.width * self.height
    }

    /// The four RGBA bytes of the pixel at row-major position `j`.
    pub open spec fn px(self, j: int) -> Seq<u8> {
        self.pixels@.subrange(4 * j, 4 * j + 4)
    }

    /// Width and height as a pair.
    pub open spec fn dims(self) -> (u32, u32) {
        (self.width, self.height)
    }

    /// Builds an image from raw RGBA bytes. Returns `None` when the buffer
    /// does not hold exactly `4 * width * height` bytes.
    pub fn from_rgba(width: u32, height: u32, pixels: Vec<u8>) -> (r: Option<Image>)
        ensures
            r is Some <==> pixels@.len() == 4 * width * height,
            r matches Some(img) ==> {
                &&& img.wf()
                &&& img.width == width
                &&& img.height == height
                &&& img.pixels@ == pixels@
            },
    {
        let w128: u128 = width as u128;
        let h128: u128 = height as u128;
        proof {
            assert(4 * w128 * h128 <= 4 * 0xFFFF_FFFFu128 * 0xFFFF_FFFFu128) by (nonlinear_arith)
                requires
                    w128 <= 0xFFFF_FFFFu128,
                    h128 <= 0xFFFF_FFFFu128,
            ;
        }
        let need: u128 = 4 * w128 * h128;
        if pixels.len() as u128 == need {
            Some(Image { width, height, pixels })
        } else {
            None
        }
    }
}

} // verus!
