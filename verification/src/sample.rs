//! Pixel sampling: a flat, ordered RGBA sample sequence collected across all
//! frames, used only to derive the palette. Within each frame only pixels
//! whose column and row are both divisible by the stride are visited, and
//! partial transparency is collapsed before quantization: alpha 0 becomes
//! the canonical transparent color, everything else becomes fully opaque.

use vstd::prelude::*;

use crate::image::Image;

verus! {

/// The canonical fully transparent RGBA color.
pub open spec fn transparent_color() -> Seq<u8> {
    seq![0u8, 0u8, 0u8, 0u8]
}

/// Alpha collapse: a pixel with alpha 0 becomes the canonical transparent
/// color; any other pixel keeps its RGB and becomes fully opaque.
pub open spec fn norm_color(c: Seq<u8>) -> Seq<u8> {
    if c[3] == 0 {
        transparent_color()
    } else {
        seq![c[0], c[1], c[2], 255u8]
    }
}

/// Whether the pixel at column `x`, row `y` is visited for stride `s`.
pub open spec fn sampled(s: u32, x: int, y: int) -> bool {
    x % (s as int) == 0 && y % (s as int) == 0
}

/// Bytes contributed by the pixel at column `x`, row `y` of one image.
pub open spec fn sample_at(img: Image, s: u32, y: int, x: int) -> Seq<u8> {
    if sampled(s, x, y) {
        norm_color(img.px(y * img.width + x))
    } else {
        Seq::empty()
    }
}

/// Bytes contributed by the first `x` pixels of row `y` of one image.
pub open spec fn row_samples_to(img: Image, s: u32, y: int, x: int) -> Seq<u8>
    decreases x,
{
    if x <= 0 {
        Seq::empty()
    } else {
        row_samples_to(img, s, y, x - 1) + sample_at(img, s, y, x - 1)
    }
}

/// Bytes contributed by the first `y` rows of one image.
pub open spec fn frame_samples_to(img: Image, s: u32, y: int) -> Seq<u8>
    decreases y,
{
    if y <= 0 {
        Seq::empty()
    } else {
        frame_samples_to(img, s, y - 1) + row_samples_to(img, s, y - 1, img.width as int)
    }
}

/// Bytes contributed by one whole image.
pub open spec fn frame_samples(img: Image, s: u32) -> Seq<u8> {
    frame_samples_to(img, s, img.height as int)
}

/// Bytes contributed by the first `i` images of the sequence.
pub open spec fn all_samples_to(imgs: Seq<Image>, s: u32, i: int) -> Seq<u8>
    decreases i,
{
    if i <= 0 {
        Seq::empty()
    } else {
        all_samples_to(imgs, s, i - 1) + frame_samples(imgs[i - 1], s)
    }
}

/// The full flat RGBA sample sequence across all images, in iteration order.
pub open spec fn all_samples(imgs: Seq<Image>, s: u32) -> Seq<u8> {
    all_samples_to(imgs, s, imgs.len() as int)
}

/// Visits every frame, and within each frame every pixel whose column and
/// row indices are both divisible by the stride, and emits the
/// alpha-collapsed RGBA bytes of each visited pixel, in iteration order.
pub fn sample_pixels(imgs: &Vec<Image>, stride: u32) -> (samples: Vec<u8>)
    requires
        stride >= 1,
        forall|k: int| 0 <= k < imgs@.len() ==> (#[trigger] imgs@[k]).wf(),
    ensures
        samples@ == all_samples(imgs@, stride),
{
    let mut samples: Vec<u8> = Vec::new();
    let mut i: usize = 0;
    while i < imgs.len()
        invariant
            i <= imgs@.len(),
            stride >= 1,
            forall|k: int| 0 <= k < imgs@.len() ==> (#[trigger] imgs@[k]).wf(),
            samples@ == all_samples_to(imgs@, stride, i as int),
        decreases imgs@.len() - i,
    {
        let img: &Image = &imgs[i];
        let w: u32 = img.width;
        let h: u32 = img.height;
        let mut y: u32 = 0;
        while y < h
            invariant
                y <= h,
                stride >= 1,
                i < imgs@.len(),
                *img == imgs@[i as int],
                img.wf(),
                w == img.width,
                h == img.height,
                samples@ == all_samples_to(imgs@, stride, i as int) + frame_samples_to(
                    *img,
                    stride,
                    y as int,
                ),
            decreases h - y,
        {
            let mut x: u32 = 0;
            while x < w
                invariant
                    x <= w,
                    y < h,
                    stride >= 1,
                    i < imgs@.len(),
                    *img == imgs@[i as int],
                    img.wf(),
                    w == img.width,
                    h == img.height,
                    samples@ == all_samples_to(imgs@, stride, i as int) + frame_samples_to(
                        *img,
                        stride,
                        y as int,
                    ) + row_samples_to(*img, stride, y as int, x as int),
                decreases w - x,
            {
                let ghost pre = samples@;
                if x % stride == 0 && y % stride == 0 {
                    proof {
                        assert((y as int) * (w as int) + (x as int) + 1 <= (w as int) * (h as int)
                            && (w as int) * (h as int) <= 0xFFFF_FFFF * 0xFFFF_FFFF
                            && 4 * ((w as int) * (h as int)) == 4 * (w as int) * (h as int))
                            by (nonlinear_arith)
                            requires
                                (y as int) < (h as int),
                                (x as int) < (w as int),
                                0 <= (x as int),
                                0 <= (y as int),
                                (w as int) <= 0xFFFF_FFFF,
                                (h as int) <= 0xFFFF_FFFF,
                        ;
                        assert(4 * ((y as int) * (w as int) + (x as int)) + 4
                            <= img.pixels@.len());
                    }
                    // binds the buffer length so its usize bound is in scope
                    let _plen: usize = img.pixels.len();
                    let j: usize = (y as usize) * (w as usize) + (x as usize);
                    let base: usize = 4 * j;
                    let p3: u8 = img.pixels[base + 3];
                    if p3 == 0 {
                        samples.push(0);
                        samples.push(0);
                        samples.push(0);
                        samples.push(0);
                    } else {
                        let p0: u8 = img.pixels[base];
                        let p1: u8 = img.pixels[base + 1];
                        let p2: u8 = img.pixels[base + 2];
                        samples.push(p0);
                        samples.push(p1);
                        samples.push(p2);
                        samples.push(255);
                    }
                    proof {
                        assert(samples@ =~= pre + sample_at(*img, stride, y as int, x as int));
                    }
                } else {
                    proof {
                        assert(samples@ =~= pre + sample_at(*img, stride, y as int, x as int));
                    }
                }
                proof {
                    assert(samples@ =~= all_samples_to(imgs@, stride, i as int) + frame_samples_to(
                        *img,
                        stride,
                        y as int,
                    ) + row_samples_to(*img, stride, y as int, x as int + 1));
                }
                x += 1;
            }
            proof {
                assert(samples@ =~= all_samples_to(imgs@, stride, i as int) + frame_samples_to(
                    *img,
                    stride,
                    y as int + 1,
                ));
            }
            y += 1;
        }
        proof {
            assert(samples@ =~= all_samples_to(imgs@, stride, i as int + 1));
        }
        i += 1;
    }
    samples
}

} // verus!
