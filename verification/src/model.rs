//! The frame metadata model: per-frame timing and placement, the frame
//! source variants, a whole animation as an ordered frame sequence, and the
//! repeat/speed configuration for assembly, together with their invariants.

use vstd::prelude::*;

verus! {

/// A rational frame duration in milliseconds: `numerator / denominator`.
/// A denominator of zero is malformed input and is rejected before any
/// frame is handed to the container codec.
#[derive(Clone, Copy, PartialEq, Eq, Structural, Debug)]
pub struct Delay {
    pub numerator: u32,
    pub denominator: u32,
}

impl Delay {
    /// A delay is valid when its denominator is not zero.
    pub open spec fn valid(self) -> bool {
        self.denominator != 0
    }
}

/// Where one frame's encoded still image comes from: a file on disk, or a
/// self-contained payload carried inline as transport-encoded text.
#[derive(Debug)]
pub enum FrameSource {
    FilePath(String),
    EmbeddedData(String),
}

/// The mathematical value of a `FrameSource`.
pub enum SourceV {
    File(Seq<char>),
    Embedded(Seq<char>),
}

impl View for FrameSource {
    type V = SourceV;

    open spec fn view(&self) -> SourceV {
        match self {
            FrameSource::FilePath(p) => SourceV::File(p@),
            FrameSource::EmbeddedData(t) => SourceV::Embedded(t@),
        }
    }
}

/// One animation frame: its delay, its source, and the pixel offset of its
/// content within the animation canvas.
#[derive(Debug)]
pub struct Frame {
    pub delay: Delay,
    pub source: FrameSource,
    pub left: u32,
    pub top: u32,
}

/// The mathematical value of a `Frame`.
pub struct FrameV {
    pub delay: Delay,
    pub source: SourceV,
    pub left: u32,
    pub top: u32,
}

impl View for Frame {
    type V = FrameV;

    open spec fn view(&self) -> FrameV {
        FrameV { delay: self.delay, source: self.source@, left: self.left, top: self.top }
    }
}

/// A whole animation: the container file it came from or goes to, and its
/// frames in playback order.
#[derive(Debug)]
pub struct AnimationSpec {
    pub file: String,
    pub frames: Vec<Frame>,
}

/// The mathematical value of an `AnimationSpec`.
pub struct AnimationV {
    pub file: Seq<char>,
    pub frames: Seq<FrameV>,
}

impl View for AnimationSpec {
    type V = AnimationV;

    open spec fn view(&self) -> AnimationV {
        AnimationV { file: self.file@, frames: self.frames@.map_values(|f: Frame| f@) }
    }
}

/// How often the assembled animation repeats. `Once` writes no repeat
/// configuration at all, so the animation plays a single time.
#[derive(Clone, Copy, PartialEq, Eq, Structural, Debug)]
pub enum RepeatMode {
    Once,
    Finite(u16),
    Infinite,
}

/// Assembly configuration: the repeat behaviour and the container codec's
/// quality/speed trade-off knob.
#[derive(Clone, Copy, PartialEq, Eq, Structural, Debug)]
pub struct EncodeConfig {
    pub repeat: RepeatMode,
    pub speed: i32,
}

impl EncodeConfig {
    /// The container codec accepts speeds 1 (best quality) through 30
    /// (fastest); anything else is a configuration error.
    pub open spec fn valid(self) -> bool {
        1 <= self.speed <= 30
    }
}

/// A decoded still image, normalized to RGBA with 8 bits per channel:
/// exactly 4 bytes per pixel, rows from top to bottom.
#[derive(Debug)]
pub struct RawImage {
    pub width: u32,
    pub height: u32,
    pub pixels: Vec<u8>,
}

/// The mathematical value of a `RawImage`.
pub struct RawImageV {
    pub width: u32,
    pub height: u32,
    pub pixels: Seq<u8>,
}

impl RawImageV {
    /// A well-formed RGBA image holds exactly 4 bytes per pixel.
    pub open spec fn wf(self) -> bool {
        self.pixels.len() == 4 * self.width * self.height
    }
}

impl View for RawImage {
    type V = RawImageV;

    open spec fn view(&self) -> RawImageV {
        RawImageV { width: self.width, height: self.height, pixels: self.pixels@ }
    }
}

/// One frame as the container codec sees it: pixel data plus timing and
/// placement.
#[derive(Debug)]
pub struct RawFrame {
    pub delay: Delay,
    pub left: u32,
    pub top: u32,
    pub image: RawImage,
}

/// The mathematical value of a `RawFrame`.
pub struct RawFrameV {
    pub delay: Delay,
    pub left: u32,
    pub top: u32,
    pub image: RawImageV,
}

impl View for RawFrame {
    type V = RawFrameV;

    open spec fn view(&self) -> RawFrameV {
        RawFrameV { delay: self.delay, left: self.left, top: self.top, image: self.image@ }
    }
}

/// Why disassembly of a container failed.
#[derive(Clone, Copy, PartialEq, Eq, Structural, Debug)]
pub enum DisassembleError {
    /// The bytes are not a valid animation container, or decoding failed
    /// partway through.
    ContainerDecode,
}

/// Why one particular frame could not be turned into codec input.
#[derive(Clone, Copy, PartialEq, Eq, Structural, Debug)]
pub enum FrameError {
    /// The frame's delay has a zero denominator.
    InvalidDelay,
    /// The frame's content does not fit within the animation canvas.
    Placement,
    /// The frame's source variant is not the one this assembler accepts.
    WrongSourceKind,
    /// The frame's embedded text is not valid transport-encoded data.
    TransportDecode,
    /// The frame's bytes are not a valid still image.
    StillImageDecode,
}

/// Why an assembly run failed.
#[derive(Clone, Copy, PartialEq, Eq, Structural, Debug)]
pub enum AssembleError {
    /// The repeat/speed configuration is invalid.
    Config,
    /// A specific frame could not be loaded or validated; the whole run is
    /// aborted, there is no skip-and-continue.
    Frame { index: usize, error: FrameError },
    /// The container codec rejected a frame.
    ContainerEncode,
}

} // verus!
