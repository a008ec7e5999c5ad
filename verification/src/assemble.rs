//! The GIF assembler. A frame set is validated and loaded frame by frame —
//! delays must have nonzero denominators, and every frame must fit the
//! animation canvas derived from the first frame's extent — and the loaded
//! frames are then streamed in order into the external container codec.
//!
//! Two variants share the per-frame core: `assemble_from_embedded` consumes
//! transport-encoded inline frame data entirely in memory, and
//! `AssembleSession` drives the file-backed variant as an explicit state
//! machine (configure, then one supply step per frame, then finish), so
//! that the caller performs only the file reads between steps.

use vstd::prelude::*;
use crate::adapter::{load_embedded, load_embedded_model, load_file_bytes, load_file_model};
use crate::codec::{encodable, gif_encode_frames, gif_encoded};
use crate::model::{
    AnimationSpec, AssembleError, Delay, EncodeConfig, Frame, FrameError, FrameSource, FrameV,
    RawFrame, RawFrameV, RawImage, RepeatMode, SourceV,
};

verus! {

/// The rightmost canvas column a frame's content reaches.
pub open spec fn extent_w(f: RawFrameV) -> int {
    f.left + f.image.width
}

/// The lowest canvas row a frame's content reaches.
pub open spec fn extent_h(f: RawFrameV) -> int {
    f.top + f.image.height
}

/// Place one loaded frame onto the canvas. The canvas is derived from the
/// first frame's extent; every frame's content (offset plus its own
/// dimensions) must lie within the canvas, else the frame is rejected
/// before anything is handed to the container codec.
pub open spec fn place(acc: Seq<RawFrameV>, cw: int, ch: int, f: RawFrameV) -> Result<
    (Seq<RawFrameV>, int, int),
    FrameError,
> {
    let cw2 = if acc.len() == 0 {
        extent_w(f)
    } else {
        cw
    };
    let ch2 = if acc.len() == 0 {
        extent_h(f)
    } else {
        ch
    };
    if extent_w(f) <= cw2 && extent_h(f) <= ch2 {
        Result::Ok((acc.push(f), cw2, ch2))
    } else {
        Result::Err(FrameError::Placement)
    }
}

/// The frames validated and loaded so far, together with the canvas
/// derived from the first of them.
#[derive(Debug)]
pub struct FrameAccum {
    pub canvas_w: u64,
    pub canvas_h: u64,
    pub loaded: Vec<RawFrame>,
}

impl FrameAccum {
    /// The mathematical value of the accumulated frame sequence.
    pub open spec fn loadedv(self) -> Seq<RawFrameV> {
        self.loaded@.map_values(|f: RawFrame| f@)
    }

    /// Accumulated frames are valid codec input (nonzero delay
    /// denominators, well-formed RGBA buffers), each fits the canvas, and
    /// the canvas is the first frame's extent.
    pub open spec fn wf(self) -> bool {
        &&& forall|i: int| 0 <= i < self.loadedv().len() ==> {
            &&& (#[trigger] self.loadedv()[i]).delay.denominator > 0
            &&& self.loadedv()[i].image.wf()
            &&& extent_w(self.loadedv()[i]) <= self.canvas_w
            &&& extent_h(self.loadedv()[i]) <= self.canvas_h
        }
        &&& self.loadedv().len() > 0 ==> {
            &&& self.canvas_w == extent_w(self.loadedv()[0])
            &&& self.canvas_h == extent_h(self.loadedv()[0])
        }
    }

    /// An empty accumulation: no frames, no canvas yet.
    pub fn empty() -> (r: FrameAccum)
        ensures
            r.loadedv() == Seq::<RawFrameV>::empty(),
            r.canvas_w == 0,
            r.canvas_h == 0,
            r.wf(),
    {
        let r = FrameAccum { canvas_w: 0, canvas_h: 0, loaded: Vec::new() };
        proof {
            assert(r.loadedv() =~= Seq::<RawFrameV>::empty());
        }
        r
    }

    /// Validate one loaded frame's placement and append it. The first
    /// frame fixes the canvas to its own extent.
    pub fn add(&mut self, delay: Delay, left: u32, top: u32, image: RawImage) -> (r: Result<
        (),
        FrameError,
    >)
        requires
            old(self).wf(),
            delay.valid(),
            image@.wf(),
        ensures
            final(self).wf(),
            match place(
                old(self).loadedv(),
                old(self).canvas_w as int,
                old(self).canvas_h as int,
                (RawFrameV { delay, left, top, image: image@ }),
            ) {
                Result::Ok((acc2, cw2, ch2)) => {
                    &&& r is Ok
                    &&& final(self).loadedv() == acc2
                    &&& final(self).canvas_w == cw2
                    &&& final(self).canvas_h == ch2
                },
                Result::Err(e) => {
                    &&& r == Result::<(), FrameError>::Err(e)
                    &&& *final(self) == *old(self)
                },
            },
    {
        let ew: u64 = left as u64 + image.width as u64;
        let eh: u64 = top as u64 + image.height as u64;
        if self.loaded.len() == 0 {
            self.canvas_w = ew;
            self.canvas_h = eh;
        }
        if ew <= self.canvas_w && eh <= self.canvas_h {
            self.loaded.push(RawFrame { delay, left, top, image });
            proof {
                assert(self.loadedv() =~= old(self).loadedv().push(
                    RawFrameV { delay, left, top, image: image@ },
                ));
            }
            Ok(())
        } else {
            Err(FrameError::Placement)
        }
    }
}

/// What validating, loading and placing the first `i` frames of an
/// embedded-data frame set yields: the loaded frame sequence and the
/// canvas, or the error of the first frame that fails. Per frame, a zero
/// delay denominator is rejected first, then the source is loaded through
/// the still-image adapter, then the placement is checked.
pub open spec fn build_embedded_upto(frames: Seq<FrameV>, i: int) -> Result<
    (Seq<RawFrameV>, int, int),
    AssembleError,
>
    decreases i,
{
    if i <= 0 {
        Result::Ok((Seq::<RawFrameV>::empty(), 0, 0))
    } else {
        match build_embedded_upto(frames, i - 1) {
            Result::Err(e) => Result::Err(e),
            Result::Ok((acc, cw, ch)) => {
                let f = frames[i - 1];
                if f.delay.denominator == 0 {
                    Result::Err(
                        (AssembleError::Frame {
                            index: (i - 1) as usize,
                            error: FrameError::InvalidDelay,
                        }),
                    )
                } else {
                    match load_embedded_model(f.source) {
                        Result::Err(e) => Result::Err(
                            (AssembleError::Frame { index: (i - 1) as usize, error: e }),
                        ),
                        Result::Ok(img) => {
                            match place(
                                acc,
                                cw,
                                ch,
                                (RawFrameV { delay: f.delay, left: f.left, top: f.top, image: img }),
                            ) {
                                Result::Ok(t) => Result::Ok(t),
                                Result::Err(e) => Result::Err(
                                    (AssembleError::Frame { index: (i - 1) as usize, error: e }),
                                ),
                            }
                        },
                    }
                }
            },
        }
    }
}

/// What validating, loading and placing a whole embedded-data frame set
/// yields: the codec input in playback order, or the first failure.
pub open spec fn build_embedded(frames: Seq<FrameV>) -> Result<Seq<RawFrameV>, AssembleError> {
    match build_embedded_upto(frames, frames.len() as int) {
        Result::Ok((acc, cw, ch)) => Result::Ok(acc),
        Result::Err(e) => Result::Err(e),
    }
}

/// Once one frame fails, the whole run fails with that frame's error, no
/// matter how many frames follow.
pub proof fn lemma_build_error_persists(frames: Seq<FrameV>, i: int, k: int)
    requires
        0 <= i <= k,
        build_embedded_upto(frames, i) is Err,
    ensures
        build_embedded_upto(frames, k) == build_embedded_upto(frames, i),
    decreases k - i,
{
    if k > i {
        lemma_build_error_persists(frames, i, k - 1);
    }
}

/// Assemble an animation from embedded frame data, entirely in memory:
/// validate the configuration, then per frame (strictly in playback order)
/// validate its delay, decode its transport text and its PNG payload,
/// check its placement, and finally stream all loaded frames into the
/// container codec. Any failure aborts the whole run; there is no
/// skip-and-continue. The result is the finished container's bytes.
pub fn assemble_from_embedded(animation: &AnimationSpec, config: EncodeConfig) -> (r: Result<
    Vec<u8>,
    AssembleError,
>)
    ensures
        !config.valid() ==> r == Result::<Vec<u8>, AssembleError>::Err(AssembleError::Config),
        config.valid() ==> match build_embedded(animation@.frames) {
            Result::Err(e) => r == Result::<Vec<u8>, AssembleError>::Err(e),
            Result::Ok(fed) => {
                if encodable(fed) {
                    &&& r is Ok
                    &&& r->Ok_0@ == gif_encoded(fed, config.repeat, config.speed)
                } else {
                    r == Result::<Vec<u8>, AssembleError>::Err(AssembleError::ContainerEncode)
                }
            },
        },
{
    let ghost fv = animation@.frames;
    if config.speed < 1 || config.speed > 30 {
        return Err(AssembleError::Config);
    }
    let mut acc = FrameAccum::empty();
    let n = animation.frames.len();
    let mut i: usize = 0;
    while i < n
        invariant
            config.valid(),
            n == animation.frames@.len(),
            fv == animation@.frames,
            i <= n,
            acc.wf(),
            build_embedded_upto(fv, i as int) == Result::<(Seq<RawFrameV>, int, int), AssembleError>::Ok(
                (acc.loadedv(), acc.canvas_w as int, acc.canvas_h as int),
            ),
        decreases n - i,
    {
        let f = &animation.frames[i];
        assert(f@ == fv[i as int]);
        if f.delay.denominator == 0 {
            proof {
                lemma_build_error_persists(fv, i as int + 1, fv.len() as int);
            }
            return Err(AssembleError::Frame { index: i, error: FrameError::InvalidDelay });
        }
        let image = match load_embedded(&f.source) {
            Ok(img) => img,
            Err(e) => {
                proof {
                    lemma_build_error_persists(fv, i as int + 1, fv.len() as int);
                }
                return Err(AssembleError::Frame { index: i, error: e });
            },
        };
        match acc.add(f.delay, f.left, f.top, image) {
            Ok(()) => {},
            Err(e) => {
                proof {
                    lemma_build_error_persists(fv, i as int + 1, fv.len() as int);
                }
                return Err(AssembleError::Frame { index: i, error: e });
            },
        }
        i += 1;
    }
    proof {
        assert forall|j: int| 0 <= j < acc.loaded@.len() implies {
            &&& (#[trigger] acc.loaded@[j])@.delay.denominator > 0
            &&& acc.loaded@[j]@.image.wf()
        } by {
            assert(acc.loadedv()[j] == acc.loaded@[j]@);
        }
    }
    match gif_encode_frames(&acc.loaded, config.repeat, config.speed) {
        Option::Some(bytes) => Ok(bytes),
        Option::None => Err(AssembleError::ContainerEncode),
    }
}

/// The name of the file a source points at; an embedded source has no
/// file name.
pub open spec fn source_file_of(s: SourceV) -> Seq<char> {
    match s {
        SourceV::File(p) => p,
        SourceV::Embedded(t) => t,
    }
}

/// Where a file-backed frame set has a frame that the file-backed
/// assembler rejects up front — a zero delay denominator, or an embedded
/// source, which is the wrong kind for it — and the first such frame's
/// index and error.
pub open spec fn files_precheck_from(frames: Seq<FrameV>, i: int) -> Option<(usize, FrameError)>
    decreases frames.len() - i,
{
    if i < 0 || i >= frames.len() {
        Option::None
    } else if frames[i].delay.denominator == 0 {
        Option::Some(((i as usize, FrameError::InvalidDelay)))
    } else if !(frames[i].source is File) {
        Option::Some(((i as usize, FrameError::WrongSourceKind)))
    } else {
        files_precheck_from(frames, i + 1)
    }
}

/// One assembly run over file-backed frames, as an explicit state machine.
/// `new` validates the configuration and every frame's delay and source
/// kind; then, while `next_path` names a frame file, the caller reads that
/// file and hands its bytes to `supply`, which decodes, validates and
/// places that one frame; `finish` streams the loaded frames into the
/// container codec. A failed step fails the whole run: the caller must
/// not continue it.
#[derive(Debug)]
pub struct AssembleSession {
    pub frames: Vec<Frame>,
    pub repeat: RepeatMode,
    pub speed: i32,
    pub next: usize,
    pub acc: FrameAccum,
}

impl AssembleSession {
    /// The session's frame metadata, as handed to `new`.
    pub open spec fn framesv(self) -> Seq<FrameV> {
        self.frames@.map_values(|f: Frame| f@)
    }

    /// A session is well-formed when its configuration and every frame's
    /// delay and source kind were validated, and the frames supplied so
    /// far carry exactly the metadata of their spec entries.
    pub open spec fn wf(self) -> bool {
        &&& 1 <= self.speed <= 30
        &&& self.acc.wf()
        &&& self.next == self.acc.loadedv().len()
        &&& self.next <= self.framesv().len()
        &&& forall|i: int| 0 <= i < self.framesv().len() ==> {
            &&& (#[trigger] self.framesv()[i]).delay.denominator > 0
            &&& self.framesv()[i].source is File
        }
        &&& forall|i: int| 0 <= i < self.next ==> {
            &&& (#[trigger] self.acc.loadedv()[i]).delay == self.framesv()[i].delay
            &&& self.acc.loadedv()[i].left == self.framesv()[i].left
            &&& self.acc.loadedv()[i].top == self.framesv()[i].top
        }
    }

    /// All frames have been supplied.
    pub open spec fn done(self) -> bool {
        self.next == self.framesv().len()
    }

    /// Start a file-backed assembly run: validate the configuration, then
    /// every frame's delay and source kind, in order.
    pub fn new(frames: Vec<Frame>, config: EncodeConfig) -> (r: Result<
        AssembleSession,
        AssembleError,
    >)
        ensures
            !config.valid() ==> r == Result::<AssembleSession, AssembleError>::Err(
                AssembleError::Config,
            ),
            config.valid() ==> match files_precheck_from(
                frames@.map_values(|f: Frame| f@),
                0,
            ) {
                Option::Some((i, e)) => r == Result::<AssembleSession, AssembleError>::Err(
                    (AssembleError::Frame { index: i, error: e }),
                ),
                Option::None => {
                    &&& r is Ok
                    &&& r->Ok_0.wf()
                    &&& r->Ok_0.framesv() == frames@.map_values(|f: Frame| f@)
                    &&& r->Ok_0.next == 0
                    &&& r->Ok_0.repeat == config.repeat
                    &&& r->Ok_0.speed == config.speed
                },
            },
    {
        let ghost fv = frames@.map_values(|f: Frame| f@);
        if config.speed < 1 || config.speed > 30 {
            return Err(AssembleError::Config);
        }
        let n = frames.len();
        let mut i: usize = 0;
        while i < n
            invariant
                config.valid(),
                n == frames@.len(),
                fv == frames@.map_values(|f: Frame| f@),
                i <= n,
                files_precheck_from(fv, 0) == files_precheck_from(fv, i as int),
                forall|j: int| 0 <= j < i ==> (#[trigger] fv[j]).delay.denominator > 0 && fv[j].source is File,
            decreases n - i,
        {
            let f = &frames[i];
            assert(f@ == fv[i as int]);
            if f.delay.denominator == 0 {
                return Err(AssembleError::Frame { index: i, error: FrameError::InvalidDelay });
            }
            match &f.source {
                FrameSource::FilePath(_) => {},
                FrameSource::EmbeddedData(_) => {
                    return Err(
                        AssembleError::Frame { index: i, error: FrameError::WrongSourceKind },
                    );
                },
            }
            i += 1;
        }
        Ok(
            AssembleSession {
                frames,
                repeat: config.repeat,
                speed: config.speed,
                next: 0,
                acc: FrameAccum::empty(),
            },
        )
    }

    /// The file the next frame must be read from, or `None` when every
    /// frame has been supplied.
    pub fn next_path(&self) -> (r: Option<String>)
        requires
            self.wf(),
        ensures
            r is Some <==> !self.done(),
            r is Some ==> r->0@ == source_file_of(self.framesv()[self.next as int].source),
    {
        if self.next >= self.frames.len() {
            return None;
        }
        match &self.frames[self.next].source {
            FrameSource::FilePath(p) => Some(p.clone()),
            FrameSource::EmbeddedData(_) => {
                proof {
                    assert(self.framesv()[self.next as int].source is File);
                    assert(false);
                }
                None
            },
        }
    }

    /// Supply the raw bytes of the next frame's file: decode them as a
    /// still image, validate the frame's placement, and append it to the
    /// run.
    pub fn supply(&mut self, data: &Vec<u8>) -> (r: Result<(), AssembleError>)
        requires
            old(self).wf(),
            !old(self).done(),
        ensures
            final(self).wf(),
            final(self).framesv() == old(self).framesv(),
            final(self).repeat == old(self).repeat,
            final(self).speed == old(self).speed,
            match load_file_model(data@) {
                Result::Err(e) => {
                    &&& r == Result::<(), AssembleError>::Err(
                        (AssembleError::Frame { index: old(self).next, error: e }),
                    )
                    &&& *final(self) == *old(self)
                },
                Result::Ok(img) => {
                    let f = old(self).framesv()[old(self).next as int];
                    match place(
                        old(self).acc.loadedv(),
                        old(self).acc.canvas_w as int,
                        old(self).acc.canvas_h as int,
                        (RawFrameV { delay: f.delay, left: f.left, top: f.top, image: img }),
                    ) {
                        Result::Ok((acc2, cw2, ch2)) => {
                            &&& r is Ok
                            &&& final(self).acc.loadedv() == acc2
                            &&& final(self).acc.canvas_w == cw2
                            &&& final(self).acc.canvas_h == ch2
                            &&& final(self).next == old(self).next + 1
                        },
                        Result::Err(e) => {
                            &&& r == Result::<(), AssembleError>::Err(
                                (AssembleError::Frame { index: old(self).next, error: e }),
                            )
                            &&& *final(self) == *old(self)
                        },
                    }
                },
            },
    {
        let image = match load_file_bytes(data) {
            Ok(img) => img,
            Err(e) => {
                return Err(AssembleError::Frame { index: self.next, error: e });
            },
        };
        let n_frames = self.frames.len();
        assert(self.next < n_frames);
        let f = &self.frames[self.next];
        assert(f@ == self.framesv()[self.next as int]);
        match self.acc.add(f.delay, f.left, f.top, image) {
            Ok(()) => {
                self.next = self.next + 1;
                Ok(())
            },
            Err(e) => Err(AssembleError::Frame { index: self.next, error: e }),
        }
    }

    /// Stream the loaded frames into the container codec and hand back the
    /// finished container's bytes. Must only be called once every frame
    /// has been supplied.
    pub fn finish(&self) -> (r: Result<Vec<u8>, AssembleError>)
        requires
            self.wf(),
            self.done(),
        ensures
            encodable(self.acc.loadedv()) ==> {
                &&& r is Ok
                &&& r->Ok_0@ == gif_encoded(self.acc.loadedv(), self.repeat, self.speed)
            },
            !encodable(self.acc.loadedv()) ==> r == Result::<Vec<u8>, AssembleError>::Err(
                AssembleError::ContainerEncode,
            ),
    {
        proof {
            assert forall|j: int| 0 <= j < self.acc.loaded@.len() implies {
                &&& (#[trigger] self.acc.loaded@[j])@.delay.denominator > 0
                &&& self.acc.loaded@[j]@.image.wf()
            } by {
                assert(self.acc.loadedv()[j] == self.acc.loaded@[j]@);
            }
        }
        match gif_encode_frames(&self.acc.loaded, self.repeat, self.speed) {
            Option::Some(bytes) => Ok(bytes),
            Option::None => Err(AssembleError::ContainerEncode),
        }
    }
}

} // verus!
