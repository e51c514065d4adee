//! Conversion of a sequence of equal-dimension RGBA raster images into a
//! single indexed-color animated GIF: dimension validation, pixel sampling,
//! palette derivation through a color-quantization network, per-pixel
//! palette-index mapping with memoization, transparency resolution, frame
//! timing, and serialization of the assembled structure to a byte stream.

use vstd::prelude::*;

mod encode;
mod error;
mod image;
mod laws;
mod output;
mod palettize;
mod quant;
mod sample;
mod validate;

pub use crate::error::Error;
pub use crate::image::Image;
pub use crate::laws::{lemma_index_mapping_idempotent, lemma_transparency_uniform};
pub use crate::output::{native_delay, Gif};
pub use crate::palettize::{frames_mapped, has_transparent, palettize, transparency_ok};
pub use crate::quant::{trained_index, trained_palette};
pub use crate::sample::{all_samples, norm_color, sample_pixels, transparent_color};
pub use crate::validate::{all_dims_match, dims_match_to, validate_dimensions};

verus! {

/// The sample fraction handed to the quantization network.
pub const SAMPLE_FACTOR: i32 = 10;

/// The number of palette entries requested from the quantization network.
pub const PALETTE_SIZE: usize = 256;

/// Milliseconds in a duration split into whole seconds and the nanoseconds
/// of the incomplete second.
pub fn ms(secs: u64, subsec_nanos: u32) -> (r: u64)
    requires
        secs * 1000 + subsec_nanos as int / 1_000_000 <= u64::MAX,
    ensures
        r == secs * 1000 + subsec_nanos as int / 1_000_000,
{
    secs * 1000 + (subsec_nanos as u64) / 1_000_000
}

/// The sampling stride that an optional sample rate stands for: every
/// pixel when absent or at most one, else the given stride.
pub open spec fn effective_stride(sample_rate: Option<u32>) -> u32 {
    match sample_rate {
        Some(s) => if s > 1 {
            s
        } else {
            1
        },
        None => 1,
    }
}

/// What a successful conversion returns: the canvas size of the first
/// image, the palette trained on the alpha-collapsed sample sequence,
/// every pixel of every frame mapped through that network, the computed
/// delay, and the transparency marker exactly when some pixel is fully
/// transparent.
pub open spec fn conversion_ok(g: Gif, imgs: Seq<Image>, fps: int, stride: u32) -> bool {
    let samples = crate::sample::all_samples(imgs, stride);
    &&& g.width as int == imgs[0].width as int
    &&& g.height as int == imgs[0].height as int
    &&& g.palette@ == trained_palette(SAMPLE_FACTOR as int, PALETTE_SIZE as int, samples)
    &&& g.palette@.len() == 3 * PALETTE_SIZE
    &&& g.images@.len() == imgs.len()
    &&& forall|f: int|
        0 <= f < imgs.len() ==> (#[trigger] g.images@[f])@.len() == imgs[f].px_count()
    &&& forall|f: int, p: int|
        0 <= f < imgs.len() && 0 <= p < imgs[f].px_count() ==> (#[trigger] g.images@[f]@[p]) as int
            == trained_index(
            SAMPLE_FACTOR as int,
            PALETTE_SIZE as int,
            samples,
            norm_color(imgs[f].px(p)),
        )
    &&& (g.transparency is Some <==> has_transparent(imgs))
    &&& (g.transparency matches Some(t) ==> t as int == trained_index(
        SAMPLE_FACTOR as int,
        PALETTE_SIZE as int,
        samples,
        transparent_color(),
    ))
    &&& g.delay as int == 1000int / fps
    &&& g.delay >= 1
}

/// Converts a sequence of images into a `Gif` at the given frame rate.
/// The sample rate, when above one, selects every Nth pixel of every Nth
/// row for palette derivation only; index mapping always visits every
/// pixel. Fails with `EmptyInput` when no images are given and with
/// `Mismatch` when two images differ in dimensions, carrying the first
/// image's dimensions and the first conflicting pair. The frame rate must
/// be between 1 and 1000: the delay computation divides by it, and the
/// output's inter-frame delay must stay positive.
pub fn engiffen(imgs: &Vec<Image>, fps: usize, sample_rate: Option<u32>) -> (r: Result<Gif, Error>)
    requires
        1 <= fps <= 1000,
        forall|k: int| 0 <= k < imgs@.len() ==> (#[trigger] imgs@[k]).wf(),
        imgs@.len() > 0 && all_dims_match(imgs@) ==> imgs@[0].width <= 0xFFFF
            && imgs@[0].height <= 0xFFFF,
    ensures
        (r matches Err(e) && e is EmptyInput) <==> imgs@.len() == 0,
        r is Ok <==> (imgs@.len() > 0 && all_dims_match(imgs@)),
        r matches Err(e) ==> !(e is EncodeFailure),
        r matches Err(Error::Mismatch(exp, act)) ==> {
            &&& exp == imgs@[0].dims()
            &&& exists|i: int|
                0 < i < imgs@.len() && (#[trigger] imgs@[i]).dims() == act && act != exp
                    && dims_match_to(imgs@, i)
        },
        r matches Ok(g) ==> g.wf() && conversion_ok(
            g,
            imgs@,
            fps as int,
            effective_stride(sample_rate),
        ),
{
    let dims: (u32, u32) = match validate_dimensions(imgs) {
        Ok(d) => d,
        Err(e) => {
            return Err(e);
        },
    };
    let stride: u32 = match sample_rate {
        Some(s) => if s > 1 {
            s
        } else {
            1
        },
        None => 1,
    };
    let samples = sample_pixels(imgs, stride);
    let q = crate::quant::quant_new(SAMPLE_FACTOR, PALETTE_SIZE, &samples);
    let palette = crate::quant::quant_color_map_rgb(&q);
    let (frames, transparency) = palettize(imgs, &q);
    proof {
        assert(1000int / (fps as int) >= 1) by (nonlinear_arith)
            requires
                1 <= fps as int <= 1000,
        ;
    }
    let delay: u16 = (1000 / fps) as u16;
    let g = Gif {
        palette,
        transparency,
        width: dims.0 as u16,
        height: dims.1 as u16,
        images: frames,
        delay,
    };
    proof {
        assert forall|f: int| 0 <= f < imgs@.len() implies (#[trigger] g.images@[f])@.len()
            == g.width * g.height by {
            assert(imgs@[f].dims() == imgs@[0].dims());
        }
    }
    Ok(g)
}

} // verus!
