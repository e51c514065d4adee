//! The output aggregate: palette, transparency marker, canvas size, indexed
//! frames and uniform delay, and its serialization protocol: header and
//! palette once, a loop-forever block, then one timed frame record per
//! indexed frame, and the trailer.

use vstd::prelude::*;

use crate::encode::{
    enc_bytes, enc_frames, enc_into_bytes, enc_looping, enc_new, enc_screen, enc_set_infinite,
    enc_write_frame, gif_frame_bytes, gif_header_bytes, gif_repeat_bytes,
};
use crate::error::Error;

verus! {

/// An assembled animated GIF: the shared flat RGB palette, the optional
/// transparent palette index, the canvas size, one palette-index buffer per
/// frame, and the uniform inter-frame delay in milliseconds.
#[derive(Clone, PartialEq, Eq, Hash, Debug)]
pub struct Gif {
    pub palette: Vec<u8>,
    pub transparency: Option<u8>,
    pub width: u16,
    pub height: u16,
    pub images: Vec<Vec<u8>>,
    pub delay: u16,
}

/// The delay of one frame in the container format's native hundredths of a
/// second: the internal millisecond delay divided by ten, truncating.
pub fn native_delay(delay: u16) -> (r: u16)
    ensures
        r == delay / 10,
{
    delay / 10
}

/// The frame records of the first `i` frames, exactly as they are handed
/// to the container encoder: canvas size, index buffer, delay in native
/// units, and the transparency marker.
pub open spec fn written_records(g: Gif, i: int) -> Seq<(u16, u16, Seq<u8>, u16, Option<u8>)>
    decreases i,
{
    if i <= 0 {
        Seq::empty()
    } else {
        written_records(g, i - 1).push(
            (g.width, g.height, g.images@[i - 1]@, g.delay / 10, g.transparency),
        )
    }
}

/// The bytes of the first `i` serialized frame records, in order.
pub open spec fn frames_bytes(g: Gif, i: int) -> Seq<u8>
    decreases i,
{
    if i <= 0 {
        Seq::empty()
    } else {
        frames_bytes(g, i - 1) + gif_frame_bytes(
            g.width,
            g.height,
            g.images@[i - 1]@,
            g.delay / 10,
            g.transparency,
        )
    }
}

/// The complete byte stream of a serialized animation: header and global
/// palette, the loop-forever block, every frame record in order, and the
/// trailer. A function of the animation's fields alone.
pub open spec fn stream_bytes(g: Gif) -> Seq<u8> {
    gif_header_bytes(g.width, g.height, g.palette@) + gif_repeat_bytes(0) + frames_bytes(
        g,
        g.images@.len() as int,
    ) + seq![0x3bu8]
}

impl Gif {
    /// The palette holds at most 256 three-byte colors and every frame
    /// buffer holds one palette index per canvas pixel.
    pub open spec fn wf(self) -> bool {
        &&& self.palette@.len() <= 768
        &&& forall|f: int|
            0 <= f < self.images@.len() ==> (#[trigger] self.images@[f])@.len() == self.width
                * self.height
    }

    /// Serializes the animation as a complete GIF byte stream: header and
    /// palette once, the loop-forever block, then one frame record per
    /// indexed frame in order, each carrying the canvas size, the frame's
    /// index buffer, the delay in native units and the transparency
    /// marker, and the trailer. Succeeds whenever the palette holds at
    /// least one color; an encoder failure is surfaced immediately as
    /// `EncodeFailure` and aborts the remaining writes.
    pub fn write(&self) -> (r: Result<Vec<u8>, Error>)
        requires
            self.wf(),
        ensures
            self.palette@.len() >= 3 ==> r is Ok,
            r matches Ok(bytes) ==> bytes@ == stream_bytes(*self),
            r matches Err(e) ==> e is EncodeFailure,
    {
        let mut enc = match enc_new(self.width, self.height, &self.palette) {
            Ok(e) => e,
            Err(err) => {
                return Err(Error::EncodeFailure(err));
            },
        };
        match enc_set_infinite(&mut enc) {
            Ok(u) => u,
            Err(err) => {
                return Err(Error::EncodeFailure(err));
            },
        };
        let d: u16 = native_delay(self.delay);
        let mut i: usize = 0;
        proof {
            assert(enc_frames(enc) =~= written_records(*self, 0));
            assert(enc_bytes(enc) =~= gif_header_bytes(self.width, self.height, self.palette@)
                + gif_repeat_bytes(0) + frames_bytes(*self, 0));
        }
        while i < self.images.len()
            invariant
                i <= self.images@.len(),
                self.wf(),
                d == self.delay / 10,
                enc_screen(enc) == (self.width, self.height, self.palette@),
                enc_looping(enc),
                enc_frames(enc) == written_records(*self, i as int),
                enc_bytes(enc) == gif_header_bytes(self.width, self.height, self.palette@)
                    + gif_repeat_bytes(0) + frames_bytes(*self, i as int),
            decreases self.images@.len() - i,
        {
            match enc_write_frame(&mut enc, self.width, self.height, &self.images[i], d, self.transparency) {
                Ok(u) => u,
                Err(err) => {
                    proof {
                        assert(self.palette@.len() < 3);
                    }
                    return Err(Error::EncodeFailure(err));
                },
            };
            proof {
                assert(enc_frames(enc) =~= written_records(*self, i as int + 1));
                assert(enc_bytes(enc) =~= gif_header_bytes(self.width, self.height, self.palette@)
                    + gif_repeat_bytes(0) + frames_bytes(*self, i as int + 1));
            }
            i += 1;
        }
        match enc_into_bytes(enc) {
            Ok(bytes) => {
                proof {
                    assert(bytes@ =~= stream_bytes(*self));
                }
                Ok(bytes)
            },
            Err(err) => Err(Error::EncodeFailure(err)),
        }
    }
}

} // verus!
