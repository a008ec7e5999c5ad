//! The GIF disassembler: decode a whole container eagerly into frames, turn
//! every frame into a PNG image named `{destination_dir}/{index}.png`, and
//! return the animation's metadata with its frames in playback order.

use vstd::prelude::*;
use crate::adapter::{png_encode_image, png_encoded};
use crate::codec::{decoded_wf, gif_decode_frames, gif_decoded};
use crate::model::{AnimationSpec, DisassembleError, Frame, FrameSource, FrameV, RawFrameV, SourceV};
use crate::paths::{frame_file_name, frame_path};

verus! {

/// One extracted frame ready to be persisted: the file name it belongs
/// under and its PNG bytes.
#[derive(Debug)]
pub struct FrameFile {
    pub path: String,
    pub data: Vec<u8>,
}

/// The mathematical value of a `FrameFile`.
pub struct FrameFileV {
    pub path: Seq<char>,
    pub data: Seq<u8>,
}

impl View for FrameFile {
    type V = FrameFileV;

    open spec fn view(&self) -> FrameFileV {
        FrameFileV { path: self.path@, data: self.data@ }
    }
}

/// Everything one disassembly run produces: the metadata model, and the
/// per-frame PNG images to persist.
#[derive(Debug)]
pub struct DisassembleOutput {
    pub animation: AnimationSpec,
    pub files: Vec<FrameFile>,
}

/// The frame metadata that disassembly derives from a decoded frame
/// sequence: delay and placement are taken from the codec's per-frame data
/// unchanged, and the source of frame `i` is the file
/// `{destination_dir}/{i}.png`.
pub open spec fn frame_meta(dir: Seq<char>, fs: Seq<RawFrameV>) -> Seq<FrameV> {
    Seq::new(
        fs.len(),
        |i: int|
            FrameV {
                delay: fs[i].delay,
                source: SourceV::File(frame_path(dir, i as nat)),
                left: fs[i].left,
                top: fs[i].top,
            },
    )
}

/// Every decoded frame has nonzero dimensions; a container that yields an
/// empty-sized frame cannot be split into still images and is treated as
/// undecodable.
pub open spec fn all_dims_positive(fs: Seq<RawFrameV>) -> bool {
    forall|i: int| 0 <= i < fs.len() ==> {
        &&& (#[trigger] fs[i]).image.width >= 1
        &&& fs[i].image.height >= 1
    }
}

/// Disassemble one animation container. `data` holds the container's
/// bytes, read from `source_path`, which is echoed back unchanged in the
/// result; each frame `i` becomes the PNG file
/// `{destination_dir}/{i}.png`. Decoding is all-or-nothing: any failure
/// aborts the run with `ContainerDecode`.
pub fn disassemble(source_path: &str, data: &Vec<u8>, destination_dir: &str) -> (r: Result<
    DisassembleOutput,
    DisassembleError,
>)
    ensures
        match gif_decoded(data@) {
            Option::None => r == Result::<DisassembleOutput, DisassembleError>::Err(
                DisassembleError::ContainerDecode,
            ),
            Option::Some(fs) => {
                if all_dims_positive(fs) {
                    &&& r is Ok
                    &&& r->Ok_0.animation@.file == source_path@
                    &&& r->Ok_0.animation@.frames == frame_meta(destination_dir@, fs)
                    &&& r->Ok_0.files@.len() == fs.len()
                    &&& forall|i: int| 0 <= i < fs.len() ==> {
                        &&& (#[trigger] r->Ok_0.files@[i])@.path == frame_path(
                            destination_dir@,
                            i as nat,
                        )
                        &&& r->Ok_0.files@[i]@.data == png_encoded(fs[i].image)
                    }
                } else {
                    r == Result::<DisassembleOutput, DisassembleError>::Err(
                        DisassembleError::ContainerDecode,
                    )
                }
            },
        },
{
    let decoded = match gif_decode_frames(data) {
        Option::Some(v) => v,
        Option::None => {
            return Err(DisassembleError::ContainerDecode);
        },
    };
    let ghost fs = gif_decoded(data@)->0;
    let mut frames: Vec<Frame> = Vec::new();
    let mut files: Vec<FrameFile> = Vec::new();
    let mut i: usize = 0;
    while i < decoded.len()
        invariant
            gif_decoded(data@) is Some,
            fs == gif_decoded(data@)->0,
            decoded@.map_values(|f: crate::model::RawFrame| f@) == fs,
            decoded_wf(fs),
            i <= decoded@.len(),
            frames@.len() == i,
            files@.len() == i,
            forall|j: int| 0 <= j < i ==> (#[trigger] frames@[j])@ == frame_meta(
                destination_dir@,
                fs,
            )[j],
            forall|j: int| 0 <= j < i ==> {
                &&& (#[trigger] files@[j])@.path == frame_path(destination_dir@, j as nat)
                &&& files@[j]@.data == png_encoded(fs[j].image)
            },
            forall|j: int| 0 <= j < i ==> (#[trigger] fs[j]).image.width >= 1 && fs[j].image.height
                >= 1,
        decreases decoded@.len() - i,
    {
        let f = &decoded[i];
        assert(f@ == fs[i as int]);
        if f.image.width == 0 || f.image.height == 0 {
            return Err(DisassembleError::ContainerDecode);
        }
        let path = frame_file_name(destination_dir, i);
        let data_png = png_encode_image(&f.image);
        files.push(FrameFile { path: path.clone(), data: data_png });
        frames.push(
            Frame { delay: f.delay, source: FrameSource::FilePath(path), left: f.left, top: f.top },
        );
        i += 1;
    }
    let animation = AnimationSpec { file: source_path.to_owned(), frames };
    proof {
        assert(animation@.frames =~~= frame_meta(destination_dir@, fs));
    }
    Ok(DisassembleOutput { animation, files })
}

} // verus!
