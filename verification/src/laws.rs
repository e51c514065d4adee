//! Laws of the conversion: memoization idempotence and the transparency
//! invariant, stated over the contract of a successful conversion.

use vstd::prelude::*;

use crate::image::Image;
use crate::output::Gif;
use crate::palettize::{frame_has_transparent_to, has_transparent_to};
use crate::sample::{norm_color, transparent_color};
use crate::conversion_ok;

verus! {

/// Mapping the same exact RGBA color twice anywhere in the input yields
/// the same palette index both times.
pub proof fn lemma_index_mapping_idempotent(
    g: Gif,
    imgs: Seq<Image>,
    fps: int,
    stride: u32,
    f1: int,
    p1: int,
    f2: int,
    p2: int,
)
    requires
        conversion_ok(g, imgs, fps, stride),
        0 <= f1 < imgs.len(),
        0 <= p1 < imgs[f1].px_count(),
        0 <= f2 < imgs.len(),
        0 <= p2 < imgs[f2].px_count(),
        imgs[f1].px(p1) == imgs[f2].px(p2),
    ensures
        g.images@[f1]@[p1] == g.images@[f2]@[p2],
{
}

/// Every pixel with alpha 0 in every frame is mapped to the transparency
/// marker, which is set.
pub proof fn lemma_transparency_uniform(
    g: Gif,
    imgs: Seq<Image>,
    fps: int,
    stride: u32,
    f: int,
    p: int,
)
    requires
        conversion_ok(g, imgs, fps, stride),
        0 <= f < imgs.len(),
        0 <= p < imgs[f].px_count(),
        imgs[f].px(p)[3] == 0,
    ensures
        g.transparency is Some,
        g.transparency matches Some(t) ==> g.images@[f]@[p] == t,
{
    assert(frame_has_transparent_to(imgs[f], imgs[f].px_count()));
    assert(has_transparent_to(imgs, imgs.len() as int));
    assert(norm_color(imgs[f].px(p)) =~= transparent_color());
}

} // verus!
