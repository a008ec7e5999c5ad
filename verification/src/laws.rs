//! The library's cross-function guarantees, stated and proved over the
//! same spec functions that the executable functions' contracts use.

use vstd::prelude::*;
use crate::adapter::load_embedded_model;
use crate::assemble::{
    build_embedded, build_embedded_upto, extent_h, extent_w, files_precheck_from,
    lemma_build_error_persists, place,
};
use crate::codec::{decoded_wf, encodable, gif_decoded, gif_encoded};
use crate::disassemble::{all_dims_positive, frame_meta};
use crate::model::{FrameV, RawFrameV, RawImageV, RepeatMode};

verus! {

/// The codec input the file-backed assembler builds when frame `i`'s file
/// loads to the image `imgs[i]`: the frame set's own metadata joined with
/// the loaded images, in order.
pub open spec fn fed_of(frames: Seq<FrameV>, imgs: Seq<RawImageV>) -> Seq<RawFrameV> {
    Seq::new(
        frames.len(),
        |i: int|
            RawFrameV {
                delay: frames[i].delay,
                left: frames[i].left,
                top: frames[i].top,
                image: imgs[i],
            },
    )
}

/// Idempotence of disassembly: the container codec's decoding is a
/// function of the container's bytes alone, so decoding the same bytes
/// into two destination directories yields frame metadata equal in every
/// field — count, order, delays, placements — except the
/// destination-dependent file paths.
pub proof fn lemma_disassemble_idempotent(data: Seq<u8>, dir1: Seq<char>, dir2: Seq<char>)
    requires
        gif_decoded(data) is Some,
    ensures
        ({
            let fs = gif_decoded(data)->0;
            let m1 = frame_meta(dir1, fs);
            let m2 = frame_meta(dir2, fs);
            &&& m1.len() == m2.len()
            &&& forall|i: int| 0 <= i < m1.len() ==> {
                &&& (#[trigger] m1[i]).delay == m2[i].delay
                &&& m1[i].left == m2[i].left
                &&& m1[i].top == m2[i].top
            }
        }),
{
}

/// Helper for the round trip: a frame set whose every delay is valid and
/// whose every source is a file passes the file-backed assembler's
/// up-front checks.
proof fn lemma_precheck_passes(frames: Seq<FrameV>, i: int)
    requires
        0 <= i,
        forall|j: int| 0 <= j < frames.len() ==> {
            &&& (#[trigger] frames[j]).delay.denominator > 0
            &&& frames[j].source is File
        },
    ensures
        files_precheck_from(frames, i) is None,
    decreases frames.len() - i,
{
    if i < frames.len() {
        lemma_precheck_passes(frames, i + 1);
    }
}

/// Round trip: disassembling a container and feeding the returned
/// metadata back to the file-backed assembler — with each frame's file
/// loading to an image of the dimensions the frame was extracted with —
/// is accepted in full: the up-front checks pass, every placement step
/// succeeds against the canvas derived from the first frame, the codec
/// accepts every frame, and the codec input reproduces the decoded frame
/// count, order, delays and placements exactly.
pub proof fn lemma_round_trip(data: Seq<u8>, dir: Seq<char>, imgs: Seq<RawImageV>)
    requires
        gif_decoded(data) is Some,
        decoded_wf(gif_decoded(data)->0),
        all_dims_positive(gif_decoded(data)->0),
        imgs.len() == gif_decoded(data)->0.len(),
        forall|i: int| 0 <= i < imgs.len() ==> {
            &&& (#[trigger] imgs[i]).width == gif_decoded(data)->0[i].image.width
            &&& imgs[i].height == gif_decoded(data)->0[i].image.height
        },
    ensures
        ({
            let fs = gif_decoded(data)->0;
            let meta = frame_meta(dir, fs);
            let fed = fed_of(meta, imgs);
            &&& files_precheck_from(meta, 0) is None
            &&& fed.len() > 0 ==> place(Seq::<RawFrameV>::empty(), 0, 0, fed[0]) == Result::<
                (Seq<RawFrameV>, int, int),
                crate::model::FrameError,
            >::Ok((fed.take(1), extent_w(fed[0]), extent_h(fed[0])))
            &&& forall|i: int| 0 < i < fed.len() ==> place(
                fed.take(i),
                extent_w(fed[0]),
                extent_h(fed[0]),
                #[trigger] fed[i],
            ) == Result::<(Seq<RawFrameV>, int, int), crate::model::FrameError>::Ok(
                (fed.take(i + 1), extent_w(fed[0]), extent_h(fed[0])),
            )
            &&& encodable(fed)
            &&& fed.len() == fs.len()
            &&& forall|i: int| 0 <= i < fs.len() ==> {
                &&& (#[trigger] fed[i]).delay == fs[i].delay
                &&& fed[i].left == fs[i].left
                &&& fed[i].top == fs[i].top
            }
        }),
{
    let fs = gif_decoded(data)->0;
    let meta = frame_meta(dir, fs);
    let fed = fed_of(meta, imgs);
    lemma_precheck_passes(meta, 0);
    if fed.len() > 0 {
        assert(fed.take(1) =~= Seq::<RawFrameV>::empty().push(fed[0]));
    }
    assert forall|i: int| 0 < i < fed.len() implies place(
        fed.take(i),
        extent_w(fed[0]),
        extent_h(fed[0]),
        #[trigger] fed[i],
    ) == Result::<(Seq<RawFrameV>, int, int), crate::model::FrameError>::Ok(
        (fed.take(i + 1), extent_w(fed[0]), extent_h(fed[0])),
    ) by {
        assert(fed.take(i + 1) =~= fed.take(i).push(fed[i]));
    }
}

/// Validation: a frame whose delay has a zero denominator makes the whole
/// embedded-data assembly fail before anything is handed to the container
/// codec, whatever the other frames hold.
pub proof fn lemma_zero_denominator_rejected(frames: Seq<FrameV>, i: int)
    requires
        0 <= i < frames.len(),
        frames[i].delay.denominator == 0,
    ensures
        build_embedded(frames) is Err,
{
    if build_embedded_upto(frames, i) is Err {
        lemma_build_error_persists(frames, i, frames.len() as int);
    } else {
        assert(build_embedded_upto(frames, i + 1) is Err);
        lemma_build_error_persists(frames, i + 1, frames.len() as int);
    }
}

/// Helper for the placement law: a prefix whose frames all validate, load
/// and fit the canvas derived from the first frame builds successfully to
/// exactly the joined frames-and-images sequence.
proof fn lemma_build_ok(frames: Seq<FrameV>, imgs: Seq<RawImageV>, i: int)
    requires
        imgs.len() == frames.len(),
        0 <= i <= frames.len(),
        forall|j: int| 0 <= j < i ==> (#[trigger] frames[j]).delay.denominator > 0,
        forall|j: int| 0 <= j < i ==> load_embedded_model((#[trigger] frames[j]).source)
            == Result::<RawImageV, crate::model::FrameError>::Ok(imgs[j]),
        forall|j: int| 0 < j < i ==> {
            &&& (#[trigger] frames[j]).left + imgs[j].width <= frames[0].left + imgs[0].width
            &&& frames[j].top + imgs[j].height <= frames[0].top + imgs[0].height
        },
    ensures
        ({
            let fed = fed_of(frames, imgs);
            build_embedded_upto(frames, i) == Result::<
                (Seq<RawFrameV>, int, int),
                crate::model::AssembleError,
            >::Ok(
                (
                    fed.take(i),
                    if i == 0 {
                        0
                    } else {
                        extent_w(fed[0])
                    },
                    if i == 0 {
                        0
                    } else {
                        extent_h(fed[0])
                    },
                ),
            )
        }),
    decreases i,
{
    let fed = fed_of(frames, imgs);
    if i == 0 {
        assert(fed.take(0) =~= Seq::<RawFrameV>::empty());
    } else {
        lemma_build_ok(frames, imgs, i - 1);
        assert(fed[i - 1] == RawFrameV {
            delay: frames[i - 1].delay,
            left: frames[i - 1].left,
            top: frames[i - 1].top,
            image: imgs[i - 1],
        });
        assert(fed.take(i) =~= fed.take(i - 1).push(fed[i - 1]));
    }
}

/// Validation: a frame whose content would reach beyond the canvas
/// derived from the first frame — its offset plus its own dimensions
/// exceeds the first frame's extent — is rejected with a placement error
/// for exactly that frame, when everything before it is acceptable.
pub proof fn lemma_placement_rejected(frames: Seq<FrameV>, imgs: Seq<RawImageV>, i: int)
    requires
        imgs.len() == frames.len(),
        0 < i < frames.len(),
        forall|j: int| 0 <= j <= i ==> (#[trigger] frames[j]).delay.denominator > 0,
        forall|j: int| 0 <= j <= i ==> load_embedded_model((#[trigger] frames[j]).source)
            == Result::<RawImageV, crate::model::FrameError>::Ok(imgs[j]),
        forall|j: int| 0 < j < i ==> {
            &&& (#[trigger] frames[j]).left + imgs[j].width <= frames[0].left + imgs[0].width
            &&& frames[j].top + imgs[j].height <= frames[0].top + imgs[0].height
        },
        frames[i].left + imgs[i].width > frames[0].left + imgs[0].width || frames[i].top
            + imgs[i].height > frames[0].top + imgs[0].height,
    ensures
        build_embedded(frames) == Result::<Seq<RawFrameV>, crate::model::AssembleError>::Err(
            (crate::model::AssembleError::Frame {
                index: i as usize,
                error: crate::model::FrameError::Placement,
            }),
        ),
{
    let fed = fed_of(frames, imgs);
    lemma_build_ok(frames, imgs, i);
    assert(fed.take(i).len() == i);
    assert(build_embedded_upto(frames, i + 1) == Result::<
        (Seq<RawFrameV>, int, int),
        crate::model::AssembleError,
    >::Err(
        (crate::model::AssembleError::Frame {
            index: i as usize,
            error: crate::model::FrameError::Placement,
        }),
    ));
    lemma_build_error_persists(frames, i + 1, frames.len() as int);
}

/// Helper for the equivalence law: every successful prefix of the
/// embedded-data pipeline builds exactly the joined frames-and-images
/// sequence of the file-backed pipeline, when the two frame sets carry the
/// same metadata and the embedded sources load to the given images.
proof fn lemma_build_prefix(
    frames_e: Seq<FrameV>,
    frames_f: Seq<FrameV>,
    imgs: Seq<RawImageV>,
    i: int,
)
    requires
        frames_e.len() == frames_f.len(),
        imgs.len() == frames_e.len(),
        forall|j: int| 0 <= j < frames_e.len() ==> {
            &&& (#[trigger] frames_e[j]).delay == frames_f[j].delay
            &&& frames_e[j].left == frames_f[j].left
            &&& frames_e[j].top == frames_f[j].top
        },
        forall|j: int| 0 <= j < frames_e.len() ==> load_embedded_model(
            (#[trigger] frames_e[j]).source,
        ) == Result::<RawImageV, crate::model::FrameError>::Ok(imgs[j]),
        0 <= i <= frames_e.len(),
        build_embedded_upto(frames_e, i) is Ok,
    ensures
        ({
            let fed = fed_of(frames_f, imgs);
            build_embedded_upto(frames_e, i) == Result::<
                (Seq<RawFrameV>, int, int),
                crate::model::AssembleError,
            >::Ok(
                (
                    fed.take(i),
                    if i == 0 {
                        0
                    } else {
                        extent_w(fed[0])
                    },
                    if i == 0 {
                        0
                    } else {
                        extent_h(fed[0])
                    },
                ),
            )
        }),
    decreases i,
{
    let fed = fed_of(frames_f, imgs);
    if i == 0 {
        assert(fed.take(0) =~= Seq::<RawFrameV>::empty());
    } else {
        if build_embedded_upto(frames_e, i - 1) is Err {
            lemma_build_error_persists(frames_e, i - 1, i);
            assert(false);
        }
        lemma_build_prefix(frames_e, frames_f, imgs, i - 1);
        assert(fed[i - 1] == RawFrameV {
            delay: frames_e[i - 1].delay,
            left: frames_e[i - 1].left,
            top: frames_e[i - 1].top,
            image: imgs[i - 1],
        });
        assert(fed.take(i) =~= fed.take(i - 1).push(fed[i - 1]));
    }
}

/// Embedded-vs-file equivalence: an embedded-data frame set and a
/// file-backed frame set that carry the same delays and placements, and
/// whose sources load to the same images, hand the container codec the
/// same input, so the two assembled containers hold identical bytes.
pub proof fn lemma_embedded_file_equivalence(
    frames_e: Seq<FrameV>,
    frames_f: Seq<FrameV>,
    imgs: Seq<RawImageV>,
    repeat: RepeatMode,
    speed: i32,
)
    requires
        frames_e.len() == frames_f.len(),
        imgs.len() == frames_e.len(),
        forall|j: int| 0 <= j < frames_e.len() ==> {
            &&& (#[trigger] frames_e[j]).delay == frames_f[j].delay
            &&& frames_e[j].left == frames_f[j].left
            &&& frames_e[j].top == frames_f[j].top
        },
        forall|j: int| 0 <= j < frames_e.len() ==> load_embedded_model(
            (#[trigger] frames_e[j]).source,
        ) == Result::<RawImageV, crate::model::FrameError>::Ok(imgs[j]),
        build_embedded(frames_e) is Ok,
    ensures
        build_embedded(frames_e) == Result::<Seq<RawFrameV>, crate::model::AssembleError>::Ok(
            fed_of(frames_f, imgs),
        ),
        gif_encoded(build_embedded(frames_e)->Ok_0, repeat, speed) == gif_encoded(
            fed_of(frames_f, imgs),
            repeat,
            speed,
        ),
{
    let fed = fed_of(frames_f, imgs);
    lemma_build_prefix(frames_e, frames_f, imgs, frames_e.len() as int);
    assert(fed.take(frames_e.len() as int) =~= fed);
}

} // verus!
