//! The container-writing capability of the `gif` crate, treated as an
//! opaque encoder that accepts a canvas, a loop setting and a sequence of
//! timed frame records, and emits the byte stream. The names below model
//! both what the encoder has been handed so far and the bytes it has
//! emitted into its sink; every piece of the stream is a deterministic
//! function of the values handed in, which the piece names record.

use vstd::prelude::*;

verus! {

/// Holds the GIF stream encoder of the `gif` crate, writing into an
/// in-memory byte sink; its contents are opaque to the verified pipeline
/// and are described only by the names below.
#[verifier::external_body]
pub struct StreamEncoder {
    inner: gif::Encoder<Vec<u8>>,
}

/// The canvas width, canvas height and global palette the encoder was
/// opened with.
pub uninterp spec fn enc_screen(e: StreamEncoder) -> (u16, u16, Seq<u8>);

/// The frame records the encoder has accepted so far: width, height, index
/// buffer, delay in hundredths of a second, and transparent index.
pub uninterp spec fn enc_frames(e: StreamEncoder) -> Seq<(u16, u16, Seq<u8>, u16, Option<u8>)>;

/// Whether the encoder has been told to loop the animation forever.
pub uninterp spec fn enc_looping(e: StreamEncoder) -> bool;

/// The bytes the encoder has emitted into its sink so far.
pub uninterp spec fn enc_bytes(e: StreamEncoder) -> Seq<u8>;

/// The bytes that opening an encoder emits: signature, logical screen
/// descriptor and padded global color table, a function of the canvas size
/// and the palette alone.
pub uninterp spec fn gif_header_bytes(width: u16, height: u16, palette: Seq<u8>) -> Seq<u8>;

/// The bytes of the application extension block that sets the animation's
/// repeat count, a function of the count on the wire alone (0 means
/// forever).
pub uninterp spec fn gif_repeat_bytes(repetitions: u16) -> Seq<u8>;

/// The bytes that writing one default-disposal, non-interlaced frame at
/// the origin without a local palette emits: graphic control extension,
/// image descriptor and compressed index data, a function of the frame's
/// geometry, buffer, delay and transparent index alone.
pub uninterp spec fn gif_frame_bytes(
    width: u16,
    height: u16,
    buffer: Seq<u8>,
    delay: u16,
    transparent: Option<u8>,
) -> Seq<u8>;

/// Relies on gif::Encoder::new: writes the signature, the logical screen
/// descriptor and the global palette, and fails only when the palette
/// holds more than 256 three-byte colors; writes into a Vec never fail.
#[verifier::external_body]
pub(crate) fn enc_new(width: u16, height: u16, palette: &Vec<u8>) -> (r: Result<
    StreamEncoder,
    gif::EncodingError,
>)
    ensures
        palette@.len() <= 768 ==> r is Ok,
        r matches Ok(e) ==> {
            &&& enc_screen(e) == (width, height, palette@)
            &&& enc_frames(e) == Seq::<(u16, u16, Seq<u8>, u16, Option<u8>)>::empty()
            &&& !enc_looping(e)
            &&& enc_bytes(e) == gif_header_bytes(width, height, palette@)
        },
{
    gif::Encoder::new(Vec::new(), width, height, palette.as_slice()).map(
        |inner| StreamEncoder { inner },
    )
}

/// Relies on gif::Encoder::set_repeat: appends the application extension
/// block that makes the animation loop forever (repeat count 0 on the
/// wire); writes into a Vec never fail.
#[verifier::external_body]
pub(crate) fn enc_set_infinite(e: &mut StreamEncoder) -> (r: Result<
    (),
    gif::EncodingError,
>)
    ensures
        r is Ok,
        enc_screen(*final(e)) == enc_screen(*old(e)),
        enc_frames(*final(e)) == enc_frames(*old(e)),
        enc_looping(*final(e)),
        enc_bytes(*final(e)) == enc_bytes(*old(e)) + gif_repeat_bytes(0),
{
    e.inner.set_repeat(gif::Repeat::Infinite)
}

/// Relies on gif::Encoder::write_frame: appends one frame record with the
/// given geometry, index buffer, delay (hundredths of a second) and
/// transparent index. The buffer must hold exactly one index per pixel:
/// the encoder rejects a smaller one, and in builds with debug assertions
/// it panics on a zero-area frame with a non-empty buffer. Succeeds
/// whenever the encoder was opened with a non-empty global palette (at
/// least one three-byte color); on success exactly that record and its
/// bytes are appended and nothing else changes.
#[verifier::external_body]
pub(crate) fn enc_write_frame(
    e: &mut StreamEncoder,
    width: u16,
    height: u16,
    buffer: &Vec<u8>,
    delay: u16,
    transparent: Option<u8>,
) -> (r: Result<(), gif::EncodingError>)
    requires
        buffer@.len() == width * height,
    ensures
        enc_screen(*old(e)).2.len() >= 3 ==> r is Ok,
        r is Ok ==> {
            &&& enc_frames(*final(e)) == enc_frames(*old(e)).push(
                (width, height, buffer@, delay, transparent),
            )
            &&& enc_screen(*final(e)) == enc_screen(*old(e))
            &&& enc_looping(*final(e)) == enc_looping(*old(e))
            &&& enc_bytes(*final(e)) == enc_bytes(*old(e)) + gif_frame_bytes(
                width,
                height,
                buffer@,
                delay,
                transparent,
            )
        },
{
    let mut frame = gif::Frame::default();
    frame.delay = delay;
    frame.width = width;
    frame.height = height;
    frame.buffer = std::borrow::Cow::Borrowed(buffer.as_slice());
    frame.transparent = transparent;
    e.inner.write_frame(&frame)
}

/// Relies on gif::Encoder::into_inner: appends the single trailer byte
/// 0x3B and hands back the byte sink; writes into a Vec never fail and the
/// sink is present in every owned encoder.
#[verifier::external_body]
pub(crate) fn enc_into_bytes(e: StreamEncoder) -> (r: Result<Vec<u8>, gif::EncodingError>)
    ensures
        r is Ok,
        r matches Ok(b) ==> b@ == enc_bytes(e).push(0x3bu8),
{
    e.inner.into_inner()
}

} // verus!
