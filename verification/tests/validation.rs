use gif_frames::assemble::{assemble_from_embedded, AssembleSession};
use gif_frames::disassemble::disassemble;
use gif_frames::model::{
    AnimationSpec, AssembleError, Delay, DisassembleError, EncodeConfig, Frame, FrameError,
    FrameSource, RepeatMode,
};

fn solid(w: u32, h: u32, rgb: [u8; 3]) -> Vec<u8> {
    let mut pixels = Vec::new();
    for _ in 0..(w * h) {
        pixels.push(rgb[0]);
        pixels.push(rgb[1]);
        pixels.push(rgb[2]);
        pixels.push(255);
    }
    pixels
}

fn png_bytes(w: u32, h: u32, pixels: Vec<u8>) -> Vec<u8> {
    let img = image::RgbaImage::from_raw(w, h, pixels).unwrap();
    let mut out = std::io::Cursor::new(Vec::new());
    img.write_to(&mut out, image::ImageFormat::Png).unwrap();
    out.into_inner()
}

fn embedded_frame(delay: Delay, left: u32, top: u32, png: &[u8]) -> Frame {
    Frame { delay, source: FrameSource::EmbeddedData(base64::encode(png)), left, top }
}

fn config() -> EncodeConfig {
    EncodeConfig { repeat: RepeatMode::Once, speed: 10 }
}

#[test]
fn zero_denominator_is_rejected_before_encoding() {
    let png0 = png_bytes(2, 2, solid(2, 2, [0, 0, 0]));
    let animation = AnimationSpec {
        file: String::from("a.gif"),
        frames: vec![embedded_frame(Delay { numerator: 100, denominator: 0 }, 0, 0, &png0)],
    };
    let r = assemble_from_embedded(&animation, config());
    assert_eq!(r.unwrap_err(), AssembleError::Frame { index: 0, error: FrameError::InvalidDelay });
}

#[test]
fn zero_denominator_is_rejected_by_the_file_session() {
    let frames = vec![Frame {
        delay: Delay { numerator: 100, denominator: 0 },
        source: FrameSource::FilePath(String::from("f.png")),
        left: 0,
        top: 0,
    }];
    let r = AssembleSession::new(frames, config());
    assert_eq!(r.unwrap_err(), AssembleError::Frame { index: 0, error: FrameError::InvalidDelay });
}

#[test]
fn invalid_transport_text_is_rejected() {
    let animation = AnimationSpec {
        file: String::from("a.gif"),
        frames: vec![Frame {
            delay: Delay { numerator: 10, denominator: 1 },
            source: FrameSource::EmbeddedData(String::from("this is *not* base64 text")),
            left: 0,
            top: 0,
        }],
    };
    let r = assemble_from_embedded(&animation, config());
    assert_eq!(
        r.unwrap_err(),
        AssembleError::Frame { index: 0, error: FrameError::TransportDecode },
    );
}

#[test]
fn transport_text_that_is_no_still_image_is_rejected() {
    let animation = AnimationSpec {
        file: String::from("a.gif"),
        frames: vec![Frame {
            delay: Delay { numerator: 10, denominator: 1 },
            source: FrameSource::EmbeddedData(base64::encode(b"plainly not a PNG")),
            left: 0,
            top: 0,
        }],
    };
    let r = assemble_from_embedded(&animation, config());
    assert_eq!(
        r.unwrap_err(),
        AssembleError::Frame { index: 0, error: FrameError::StillImageDecode },
    );
}

#[test]
fn each_assembler_rejects_the_other_source_kind() {
    let png0 = png_bytes(2, 2, solid(2, 2, [0, 0, 0]));
    let delay = Delay { numerator: 10, denominator: 1 };

    let with_path = AnimationSpec {
        file: String::from("a.gif"),
        frames: vec![Frame {
            delay,
            source: FrameSource::FilePath(String::from("0.png")),
            left: 0,
            top: 0,
        }],
    };
    let r = assemble_from_embedded(&with_path, config());
    assert_eq!(
        r.unwrap_err(),
        AssembleError::Frame { index: 0, error: FrameError::WrongSourceKind },
    );

    let with_embedded = vec![embedded_frame(delay, 0, 0, &png0)];
    let r = AssembleSession::new(with_embedded, config());
    assert_eq!(
        r.unwrap_err(),
        AssembleError::Frame { index: 0, error: FrameError::WrongSourceKind },
    );
}

#[test]
fn frame_outside_the_canvas_is_rejected() {
    // The canvas is the first frame's extent (4 x 4); the second frame's
    // content would reach column 5.
    let png0 = png_bytes(4, 4, solid(4, 4, [0, 0, 0]));
    let png1 = png_bytes(4, 4, solid(4, 4, [1, 1, 1]));
    let animation = AnimationSpec {
        file: String::from("a.gif"),
        frames: vec![
            embedded_frame(Delay { numerator: 10, denominator: 1 }, 0, 0, &png0),
            embedded_frame(Delay { numerator: 10, denominator: 1 }, 1, 1, &png1),
        ],
    };
    let r = assemble_from_embedded(&animation, config());
    assert_eq!(r.unwrap_err(), AssembleError::Frame { index: 1, error: FrameError::Placement });
}

#[test]
fn placement_is_rejected_by_the_file_session_too() {
    let png0 = png_bytes(4, 4, solid(4, 4, [0, 0, 0]));
    let delay = Delay { numerator: 10, denominator: 1 };
    let frames = vec![
        Frame { delay, source: FrameSource::FilePath(String::from("0.png")), left: 0, top: 0 },
        Frame { delay, source: FrameSource::FilePath(String::from("1.png")), left: 2, top: 2 },
    ];
    let mut session = AssembleSession::new(frames, config()).unwrap();
    session.supply(&png0).unwrap();
    let r = session.supply(&png0);
    assert_eq!(r.unwrap_err(), AssembleError::Frame { index: 1, error: FrameError::Placement });
}

#[test]
fn file_bytes_that_are_no_still_image_are_rejected() {
    let delay = Delay { numerator: 10, denominator: 1 };
    let frames = vec![Frame {
        delay,
        source: FrameSource::FilePath(String::from("0.png")),
        left: 0,
        top: 0,
    }];
    let mut session = AssembleSession::new(frames, config()).unwrap();
    let garbage: Vec<u8> = vec![1, 2, 3, 4, 5];
    let r = session.supply(&garbage);
    assert_eq!(
        r.unwrap_err(),
        AssembleError::Frame { index: 0, error: FrameError::StillImageDecode },
    );
}

#[test]
fn out_of_range_speed_is_a_config_error() {
    let png0 = png_bytes(2, 2, solid(2, 2, [0, 0, 0]));
    let animation = AnimationSpec {
        file: String::from("a.gif"),
        frames: vec![embedded_frame(Delay { numerator: 10, denominator: 1 }, 0, 0, &png0)],
    };
    for speed in [0, -1, 31, 100] {
        let cfg = EncodeConfig { repeat: RepeatMode::Once, speed };
        let r = assemble_from_embedded(&animation, cfg);
        assert_eq!(r.unwrap_err(), AssembleError::Config);
        let frames = vec![Frame {
            delay: Delay { numerator: 10, denominator: 1 },
            source: FrameSource::FilePath(String::from("0.png")),
            left: 0,
            top: 0,
        }];
        assert_eq!(AssembleSession::new(frames, cfg).unwrap_err(), AssembleError::Config);
    }
}

#[test]
fn undecodable_container_is_rejected() {
    let garbage: Vec<u8> = vec![0x47, 0x49, 0x46, 0x38, 0x39, 0x61, 0xFF];
    let r = disassemble("bad.gif", &garbage, "out");
    assert_eq!(r.unwrap_err(), DisassembleError::ContainerDecode);

    let empty: Vec<u8> = Vec::new();
    let r = disassemble("empty.gif", &empty, "out");
    assert_eq!(r.unwrap_err(), DisassembleError::ContainerDecode);
}

#[test]
fn empty_frame_set_assembles_to_an_empty_container() {
    // The container codec opens its writer lazily at the first frame, so
    // an empty frame set produces no container bytes at all, and those
    // bytes in turn do not decode as an animation.
    let animation = AnimationSpec { file: String::from("e.gif"), frames: Vec::new() };
    let bytes = assemble_from_embedded(&animation, config()).unwrap();
    assert_eq!(bytes, Vec::<u8>::new());
    assert_eq!(
        disassemble("e.gif", &bytes, "out").unwrap_err(),
        DisassembleError::ContainerDecode,
    );
}
