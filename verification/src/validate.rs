//! Dimension validation: every image of the sequence must share the
//! dimensions of the first one.

use vstd::prelude::*;

use crate::error::Error;
use crate::image::Image;

verus! {

/// Every image strictly before position `i` has the dimensions of the first.
pub open spec fn dims_match_to(s: Seq<Image>, i: int) -> bool {
    forall|j: int| 0 < j < i ==> (#[trigger] s[j]).dims() == s[0].dims()
}

/// All images of the sequence share the dimensions of the first.
pub open spec fn all_dims_match(s: Seq<Image>) -> bool {
    dims_match_to(s, s.len() as int)
}

/// Returns the common (width, height) of a non-empty sequence of
/// equal-dimension images; `EmptyInput` when the sequence is empty; the
/// first image's dimensions and the first conflicting pair otherwise.
pub fn validate_dimensions(imgs: &Vec<Image>) -> (r: Result<(u32, u32), Error>)
    ensures
        (r matches Err(e) && e is EmptyInput) <==> imgs@.len() == 0,
        r is Ok <==> (imgs@.len() > 0 && all_dims_match(imgs@)),
        r matches Ok(d) ==> d == imgs@[0].dims(),
        r matches Err(e) ==> !(e is EncodeFailure),
        r matches Err(Error::Mismatch(exp, act)) ==> {
            &&& exp == imgs@[0].dims()
            &&& exists|i: int|
                0 < i < imgs@.len() && (#[trigger] imgs@[i]).dims() == act && act != exp
                    && dims_match_to(imgs@, i)
        },
{
    if imgs.len() == 0 {
        return Err(Error::EmptyInput);
    }
    let first_w: u32 = imgs[0].width;
    let first_h: u32 = imgs[0].height;
    let mut i: usize = 1;
    while i < imgs.len()
        invariant
            1 <= i <= imgs@.len(),
            imgs@.len() > 0,
            first_w == imgs@[0].width,
            first_h == imgs@[0].height,
            dims_match_to(imgs@, i as int),
        decreases imgs@.len() - i,
    {
        let w: u32 = imgs[i].width;
        let h: u32 = imgs[i].height;
        if w != first_w || h != first_h {
            return Err(Error::Mismatch((first_w, first_h), (w, h)));
        }
        i += 1;
    }
    Ok((first_w, first_h))
}

} // verus!
