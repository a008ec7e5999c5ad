//! The trusted boundary to the external GIF container codec (the `image`
//! crate). Decoding and encoding a container are deterministic functions of
//! the bytes, the frames and the configuration alone, so each direction is
//! given an uninterpreted name, and the wrapper below it states what the
//! codec's source shows about every outcome.

use vstd::prelude::*;
use crate::model::{Delay, RawFrame, RawFrameV, RawImage, RepeatMode};
use image::codecs::gif::{GifDecoder, GifEncoder, Repeat};
use image::AnimationDecoder;

verus! {

/// The frame sequence that the container codec decodes from `data`, or
/// `None` when the bytes are not a valid animation container.
pub uninterp spec fn gif_decoded(data: Seq<u8>) -> Option<Seq<RawFrameV>>;

/// The container bytes that the codec produces for `frames` under the given
/// repeat mode and speed.
pub uninterp spec fn gif_encoded(frames: Seq<RawFrameV>, repeat: RepeatMode, speed: i32) -> Seq<u8>;

/// What the codec's decoder guarantees of every frame sequence it returns:
/// delays carry a positive denominator, every frame is composited onto the
/// full canvas (so its offsets are zero and all frames share the first
/// frame's dimensions, which fit the container's 16-bit limit), and pixel
/// buffers are RGBA with 8 bits per channel.
pub open spec fn decoded_wf(fs: Seq<RawFrameV>) -> bool {
    forall|i: int| 0 <= i < fs.len() ==> {
        &&& (#[trigger] fs[i]).delay.denominator > 0
        &&& fs[i].left == 0
        &&& fs[i].top == 0
        &&& fs[i].image.wf()
        &&& fs[i].image.width <= 0xFFFF
        &&& fs[i].image.height <= 0xFFFF
        &&& fs[i].image.width == fs[0].image.width
        &&& fs[i].image.height == fs[0].image.height
    }
}

/// All frame buffers fit the container's 16-bit dimension limit; beyond it
/// the codec rejects the frame.
pub open spec fn encodable(frames: Seq<RawFrameV>) -> bool {
    forall|i: int| 0 <= i < frames.len() ==> {
        &&& (#[trigger] frames[i]).image.width <= 0xFFFF
        &&& frames[i].image.height <= 0xFFFF
    }
}

/// Relies on `image::codecs::gif::GifDecoder::new` and
/// `AnimationDecoder::into_frames().collect_frames()`: the codec decodes the
/// whole container eagerly into frames in playback order, composites each
/// onto the canvas at offset (0, 0) with the canvas dimensions (which come
/// from 16-bit fields), normalizes pixels to RGBA8, and reports each delay
/// as an exact millisecond ratio with nonzero denominator. The accessors
/// `Frame::delay`/`left`/`top`/`into_buffer` and `Delay::numer_denom_ms`
/// only hand those parts out.
#[verifier::external_body]
pub(crate) fn gif_decode_frames(data: &Vec<u8>) -> (r: Option<Vec<RawFrame>>)
    ensures
        r is Some <==> gif_decoded(data@) is Some,
        r is Some ==> {
            let fs = gif_decoded(data@)->0;
            &&& r->0@.map_values(|f: RawFrame| f@) == fs
            &&& decoded_wf(fs)
        },
{
    let dec = GifDecoder::new(std::io::Cursor::new(data.as_slice())).ok()?;
    let frames = dec.into_frames().collect_frames().ok()?;
    let mut out: Vec<RawFrame> = Vec::new();
    for f in frames {
        let (numerator, denominator) = f.delay().numer_denom_ms();
        let (left, top) = (f.left(), f.top());
        let buf = f.into_buffer();
        let image = RawImage { width: buf.width(), height: buf.height(), pixels: buf.into_raw() };
        out.push(RawFrame { delay: Delay { numerator, denominator }, left, top, image });
    }
    Some(out)
}

/// Relies on `image::codecs::gif::GifEncoder`: `new_with_speed` accepts
/// speeds 1..=30 (and panics outside that range), `set_repeat` before the
/// first frame only records the repeat mode, and `encode_frame` writes each
/// frame in call order, failing exactly when a frame's buffer exceeds the
/// container's 16-bit dimensions; with an in-memory writer nothing else can
/// fail. `RgbaImage::from_raw` succeeds because each buffer holds exactly 4
/// bytes per pixel, and `Delay::from_numer_denom_ms` requires the nonzero
/// denominator.
#[verifier::external_body]
pub(crate) fn gif_encode_frames(frames: &Vec<RawFrame>, repeat: RepeatMode, speed: i32) -> (r: Option<
    Vec<u8>,
>)
    requires
        1 <= speed <= 30,
        forall|i: int| 0 <= i < frames@.len() ==> {
            &&& (#[trigger] frames@[i])@.delay.denominator > 0
            &&& frames@[i]@.image.wf()
        },
    ensures
        r is Some <==> encodable(frames@.map_values(|f: RawFrame| f@)),
        r is Some ==> r->0@ == gif_encoded(
            frames@.map_values(|f: RawFrame| f@),
            repeat,
            speed,
        ),
{
    let mut buf: Vec<u8> = Vec::new();
    let mut enc = GifEncoder::new_with_speed(&mut buf, speed);
    match repeat {
        RepeatMode::Once => {}
        RepeatMode::Finite(n) => enc.set_repeat(Repeat::Finite(n)).ok()?,
        RepeatMode::Infinite => enc.set_repeat(Repeat::Infinite).ok()?,
    }
    for f in frames {
        let img = image::RgbaImage::from_raw(f.image.width, f.image.height, f.image.pixels.clone())?;
        let delay = image::Delay::from_numer_denom_ms(f.delay.numerator, f.delay.denominator);
        enc.encode_frame(image::Frame::from_parts(img, f.left, f.top, delay)).ok()?;
    }
    drop(enc);
    Some(buf)
}

} // verus!
