//! Index mapping: every pixel of every frame is mapped to a palette index,
//! memoized by its exact four-byte RGBA value, with the alpha-collapsed
//! color used for the palette lookup. The palette index chosen for the
//! canonical transparent color becomes the transparency marker, set the
//! first time a fully transparent pixel is observed and never overwritten.

use std::collections::HashMap;

use vstd::prelude::*;

use crate::image::Image;
use crate::quant::{quant_color_count, quant_index, quant_index_of};
use crate::sample::{norm_color, transparent_color};

verus! {

/// A pixel's memoization key: its four raw RGBA bytes packed into one
/// integer, highest byte first.
pub open spec fn color_key_of(c: Seq<u8>) -> u32 {
    (c[0] * 0x100_0000 + c[1] * 0x1_0000 + c[2] * 0x100 + c[3]) as u32
}

/// Distinct four-byte colors pack to distinct keys.
proof fn lemma_color_key_injective(c1: Seq<u8>, c2: Seq<u8>)
    requires
        c1.len() == 4,
        c2.len() == 4,
        color_key_of(c1) == color_key_of(c2),
    ensures
        c1 == c2,
{
    assert(c1[0] == c2[0] && c1[1] == c2[1] && c1[2] == c2[2] && c1[3] == c2[3]);
    assert(c1 =~= c2);
}

/// Some pixel among the first `j` of the image is fully transparent.
pub open spec fn frame_has_transparent_to(img: Image, j: int) -> bool {
    exists|p: int| 0 <= p < j && (#[trigger] img.px(p))[3] == 0
}

/// Some pixel of the image is fully transparent.
pub open spec fn frame_has_transparent(img: Image) -> bool {
    frame_has_transparent_to(img, img.px_count())
}

/// Some pixel among the first `i` images is fully transparent.
pub open spec fn has_transparent_to(imgs: Seq<Image>, i: int) -> bool {
    exists|f: int| 0 <= f < i && frame_has_transparent(#[trigger] imgs[f])
}

/// Some pixel of some image is fully transparent.
pub open spec fn has_transparent(imgs: Seq<Image>) -> bool {
    has_transparent_to(imgs, imgs.len() as int)
}

proof fn lemma_has_transparent_step(imgs: Seq<Image>, i: int)
    requires
        0 <= i < imgs.len(),
    ensures
        has_transparent_to(imgs, i + 1) <==> (has_transparent_to(imgs, i)
            || frame_has_transparent(imgs[i])),
{
    if has_transparent_to(imgs, i + 1) {
        let f = choose|f: int| 0 <= f < i + 1 && frame_has_transparent(#[trigger] imgs[f]);
        if f < i {
            assert(has_transparent_to(imgs, i));
        } else {
            assert(frame_has_transparent(imgs[i]));
        }
    }
    if has_transparent_to(imgs, i) {
        let f = choose|f: int| 0 <= f < i && frame_has_transparent(#[trigger] imgs[f]);
        assert(0 <= f < i + 1);
        assert(has_transparent_to(imgs, i + 1));
    }
    if frame_has_transparent(imgs[i]) {
        assert(has_transparent_to(imgs, i + 1));
    }
}

/// Every indexed frame has one entry per pixel, and every entry is the
/// palette index of the pixel's alpha-collapsed color.
pub open spec fn frames_mapped(
    frames: Seq<Vec<u8>>,
    imgs: Seq<Image>,
    q: color_quant::NeuQuant,
) -> bool {
    &&& frames.len() == imgs.len()
    &&& forall|f: int| 0 <= f < imgs.len() ==> (#[trigger] frames[f])@.len() == imgs[f].px_count()
    &&& forall|f: int, p: int|
        0 <= f < imgs.len() && 0 <= p < imgs[f].px_count() ==> (#[trigger] frames[f]@[p]) as int
            == quant_index(q, norm_color(imgs[f].px(p)))
}

/// The transparency marker is set if and only if some pixel is fully
/// transparent, and it is the palette index of the canonical transparent
/// color.
pub open spec fn transparency_ok(
    t: Option<u8>,
    seen_transparent: bool,
    q: color_quant::NeuQuant,
) -> bool {
    &&& (t is Some <==> seen_transparent)
    &&& (t matches Some(v) ==> v as int == quant_index(q, transparent_color()))
}

/// The memoization cache only holds the packed key of a color already seen,
/// mapped to the palette index of that color's alpha-collapsed value; and a
/// cached transparent color implies the marker is set.
spec fn cache_ok(
    m: Map<u32, u8>,
    src: Map<u32, Seq<u8>>,
    t: Option<u8>,
    q: color_quant::NeuQuant,
) -> bool {
    forall|k: u32| #[trigger] m.contains_key(k) ==> {
        &&& src.contains_key(k)
        &&& src[k].len() == 4
        &&& color_key_of(src[k]) == k
        &&& m[k] as int == quant_index(q, norm_color(src[k]))
        &&& (src[k][3] == 0 ==> t is Some)
    }
}

/// Maps every pixel of every frame to a palette index, in input order,
/// memoizing by exact RGBA value, and resolves the transparency marker.
pub fn palettize(imgs: &Vec<Image>, q: &color_quant::NeuQuant) -> (r: (Vec<Vec<u8>>, Option<u8>))
    requires
        forall|k: int| 0 <= k < imgs@.len() ==> (#[trigger] imgs@[k]).wf(),
        1 <= quant_color_count(*q) <= 256,
    ensures
        frames_mapped(r.0@, imgs@, *q),
        transparency_ok(r.1, has_transparent(imgs@), *q),
{
    let mut frames: Vec<Vec<u8>> = Vec::new();
    let mut transparency: Option<u8> = None;
    let mut cache: HashMap<u32, u8> = HashMap::new();
    let ghost mut src: Map<u32, Seq<u8>> = Map::empty();
    let mut i: usize = 0;
    while i < imgs.len()
        invariant
            i <= imgs@.len(),
            forall|k: int| 0 <= k < imgs@.len() ==> (#[trigger] imgs@[k]).wf(),
            1 <= quant_color_count(*q) <= 256,
            frames@.len() == i,
            forall|f: int|
                0 <= f < i as int ==> (#[trigger] frames@[f])@.len() == imgs@[f].px_count(),
            forall|f: int, p: int|
                0 <= f < i as int && 0 <= p < imgs@[f].px_count() ==> (#[trigger] frames@[f]@[p])
                    as int == quant_index(*q, norm_color(imgs@[f].px(p))),
            cache_ok(cache@, src, transparency, *q),
            transparency_ok(transparency, has_transparent_to(imgs@, i as int), *q),
        decreases imgs@.len() - i,
    {
        let img: &Image = &imgs[i];
        let w: u32 = img.width;
        let h: u32 = img.height;
        let plen: usize = img.pixels.len();
        proof {
            assert(4 * ((w as int) * (h as int)) == 4 * (w as int) * (h as int)
                && (w as int) * (h as int) >= 0) by (nonlinear_arith);
            assert(4 * ((w as int) * (h as int)) == img.pixels@.len());
        }
        let count: usize = (w as usize) * (h as usize);
        let mut row: Vec<u8> = Vec::new();
        let mut j: usize = 0;
        while j < count
            invariant
                j <= count,
                i < imgs@.len(),
                *img == imgs@[i as int],
                img.wf(),
                w == img.width,
                h == img.height,
                count as int == img.px_count(),
                plen as int == img.pixels@.len(),
                4 * (count as int) == plen as int,
                1 <= quant_color_count(*q) <= 256,
                row@.len() == j,
                forall|p: int|
                    0 <= p < j as int ==> (#[trigger] row@[p]) as int == quant_index(
                        *q,
                        norm_color(imgs@[i as int].px(p)),
                    ),
                cache_ok(cache@, src, transparency, *q),
                transparency_ok(
                    transparency,
                    has_transparent_to(imgs@, i as int) || frame_has_transparent_to(
                        *img,
                        j as int,
                    ),
                    *q,
                ),
            decreases count - j,
        {
            let base: usize = 4 * j;
            let cr: u8 = img.pixels[base];
            let cg: u8 = img.pixels[base + 1];
            let cb: u8 = img.pixels[base + 2];
            let ca: u8 = img.pixels[base + 3];
            let ghost c = img.px(j as int);
            proof {
                assert(c.len() == 4);
                assert(c[0] == cr && c[1] == cg && c[2] == cb && c[3] == ca);
            }
            let key: u32 = (cr as u32) * 0x100_0000 + (cg as u32) * 0x1_0000 + (cb as u32) * 0x100
                + (ca as u32);
            proof {
                assert(key == color_key_of(c));
            }
            let cached: Option<u8> = match cache.get(&key) {
                Some(v) => Some(*v),
                None => None,
            };
            let v: u8 = match cached {
                Some(vv) => {
                    proof {
                        lemma_color_key_injective(src[key], c);
                    }
                    vv
                },
                None => {
                    let idx: usize = if ca == 0 {
                        quant_index_of(q, 0, 0, 0, 0)
                    } else {
                        quant_index_of(q, cr, cg, cb, 255)
                    };
                    proof {
                        if ca == 0 {
                            assert(seq![0u8, 0u8, 0u8, 0u8] =~= norm_color(c));
                        } else {
                            assert(seq![cr, cg, cb, 255u8] =~= norm_color(c));
                        }
                    }
                    let vv: u8 = idx as u8;
                    cache.insert(key, vv);
                    proof {
                        src = src.insert(key, c);
                    }
                    if ca == 0 && transparency.is_none() {
                        proof {
                            assert(norm_color(c) =~= transparent_color());
                        }
                        transparency = Some(vv);
                    }
                    vv
                },
            };
            row.push(v);
            proof {
                if ca == 0 {
                    assert(frame_has_transparent_to(*img, j as int + 1));
                } else {
                    if !(has_transparent_to(imgs@, i as int) || frame_has_transparent_to(
                        *img,
                        j as int,
                    )) {
                        assert forall|p: int| 0 <= p < j as int + 1 implies (#[trigger] img.px(
                            p,
                        ))[3] != 0 by {
                            if p < j as int {
                                assert(!frame_has_transparent_to(*img, j as int));
                            }
                        }
                        assert(!frame_has_transparent_to(*img, j as int + 1));
                    }
                }
            }
            j += 1;
        }
        frames.push(row);
        proof {
            lemma_has_transparent_step(imgs@, i as int);
        }
        i += 1;
    }
    (frames, transparency)
}

} // verus!
