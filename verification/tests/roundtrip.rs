use gif_frames::assemble::{assemble_from_embedded, AssembleSession};
use gif_frames::disassemble::disassemble;
use gif_frames::model::{
    AnimationSpec, Delay, EncodeConfig, Frame, FrameSource, RepeatMode,
};

fn solid(w: u32, h: u32, rgb: [u8; 3]) -> Vec<u8> {
    let mut pixels = Vec::new();
    for _ in 0..(w * h) {
        pixels.push(rgb[0]);
        pixels.push(rgb[1]);
        pixels.push(rgb[2]);
        pixels.push(255);
    }
    pixels
}

fn png_bytes(w: u32, h: u32, pixels: Vec<u8>) -> Vec<u8> {
    let img = image::RgbaImage::from_raw(w, h, pixels).unwrap();
    let mut out = std::io::Cursor::new(Vec::new());
    img.write_to(&mut out, image::ImageFormat::Png).unwrap();
    out.into_inner()
}

fn embedded_frame(delay: Delay, left: u32, top: u32, png: &[u8]) -> Frame {
    Frame { delay, source: FrameSource::EmbeddedData(base64::encode(png)), left, top }
}

fn decode_png(data: &[u8]) -> (u32, u32, Vec<u8>) {
    let img = image::load_from_memory_with_format(data, image::ImageFormat::Png)
        .unwrap()
        .into_rgba8();
    (img.width(), img.height(), img.into_raw())
}

fn two_frame_animation() -> AnimationSpec {
    let png0 = png_bytes(4, 4, solid(4, 4, [255, 0, 0]));
    let png1 = png_bytes(2, 2, solid(2, 2, [0, 0, 255]));
    AnimationSpec {
        file: String::from("anim.gif"),
        frames: vec![
            embedded_frame(Delay { numerator: 100, denominator: 1 }, 0, 0, &png0),
            embedded_frame(Delay { numerator: 200, denominator: 1 }, 1, 1, &png1),
        ],
    }
}

fn config() -> EncodeConfig {
    EncodeConfig { repeat: RepeatMode::Infinite, speed: 10 }
}

#[test]
fn decode_two_frames_metadata() {
    let animation = two_frame_animation();
    let gif = assemble_from_embedded(&animation, config()).unwrap();

    let out = disassemble("anim.gif", &gif, "out").unwrap();
    assert_eq!(out.animation.file, "anim.gif");
    assert_eq!(out.animation.frames.len(), 2);
    assert_eq!(out.files.len(), 2);

    let f0 = &out.animation.frames[0];
    assert_eq!(f0.delay, Delay { numerator: 100, denominator: 1 });
    assert_eq!((f0.left, f0.top), (0, 0));
    match &f0.source {
        FrameSource::FilePath(p) => assert_eq!(p, "out/0.png"),
        FrameSource::EmbeddedData(_) => panic!("expected a file source"),
    }

    let f1 = &out.animation.frames[1];
    assert_eq!(f1.delay, Delay { numerator: 200, denominator: 1 });
    // This container codec composites every frame onto the full canvas, so
    // decoded frames always sit at the origin.
    assert_eq!((f1.left, f1.top), (0, 0));
    match &f1.source {
        FrameSource::FilePath(p) => assert_eq!(p, "out/1.png"),
        FrameSource::EmbeddedData(_) => panic!("expected a file source"),
    }

    assert_eq!(out.files[0].path, "out/0.png");
    assert_eq!(out.files[1].path, "out/1.png");

    // Both extracted stills are canvas-sized, and frame 0 is the solid
    // red square it was built from.
    let (w0, h0, px0) = decode_png(&out.files[0].data);
    assert_eq!((w0, h0), (4, 4));
    assert_eq!(px0, solid(4, 4, [255, 0, 0]));
    let (w1, h1, _) = decode_png(&out.files[1].data);
    assert_eq!((w1, h1), (4, 4));
}

#[test]
fn round_trip_preserves_frames() {
    let animation = two_frame_animation();
    let gif = assemble_from_embedded(&animation, config()).unwrap();
    let first = disassemble("anim.gif", &gif, "out").unwrap();

    let first_meta: Vec<(Delay, u32, u32)> = first
        .animation
        .frames
        .iter()
        .map(|f| (f.delay, f.left, f.top))
        .collect();

    // Feed the returned metadata back through the file-backed assembler,
    // supplying each frame's extracted PNG in place of the file read.
    let mut session = AssembleSession::new(first.animation.frames, config()).unwrap();
    let mut supplied: usize = 0;
    while let Some(path) = session.next_path() {
        assert_eq!(path, format!("out/{}.png", supplied));
        session.supply(&first.files[supplied].data).unwrap();
        supplied += 1;
    }
    assert_eq!(supplied, 2);
    let gif2 = session.finish().unwrap();

    let second = disassemble("anim.gif", &gif2, "out").unwrap();
    assert_eq!(second.animation.frames.len(), 2);
    for i in 0..2 {
        let (a_delay, a_left, a_top) = first_meta[i];
        let b = &second.animation.frames[i];
        assert_eq!(a_delay, b.delay);
        assert_eq!((a_left, a_top), (b.left, b.top));
        // Pixel-exact round trip: few colors, so the container's palette
        // is exact and the PNG intermediate is lossless.
        assert_eq!(decode_png(&first.files[i].data), decode_png(&second.files[i].data));
    }
}

#[test]
fn decode_twice_differs_only_in_paths() {
    let animation = two_frame_animation();
    let gif = assemble_from_embedded(&animation, config()).unwrap();

    let a = disassemble("anim.gif", &gif, "first_dir").unwrap();
    let b = disassemble("anim.gif", &gif, "second_dir").unwrap();

    assert_eq!(a.animation.file, b.animation.file);
    assert_eq!(a.animation.frames.len(), b.animation.frames.len());
    for i in 0..a.animation.frames.len() {
        let fa = &a.animation.frames[i];
        let fb = &b.animation.frames[i];
        assert_eq!(fa.delay, fb.delay);
        assert_eq!((fa.left, fa.top), (fb.left, fb.top));
        match (&fa.source, &fb.source) {
            (FrameSource::FilePath(pa), FrameSource::FilePath(pb)) => {
                assert_eq!(pa, &format!("first_dir/{}.png", i));
                assert_eq!(pb, &format!("second_dir/{}.png", i));
            }
            _ => panic!("expected file sources"),
        }
        assert_eq!(a.files[i].data, b.files[i].data);
    }
}

#[test]
fn embedded_and_file_variants_agree() {
    let png0 = png_bytes(4, 4, solid(4, 4, [0, 255, 0]));
    let png1 = png_bytes(3, 3, solid(3, 3, [255, 255, 0]));
    let d0 = Delay { numerator: 50, denominator: 1 };
    let d1 = Delay { numerator: 70, denominator: 1 };

    let embedded = AnimationSpec {
        file: String::from("a.gif"),
        frames: vec![embedded_frame(d0, 0, 0, &png0), embedded_frame(d1, 1, 0, &png1)],
    };
    let by_embedded = assemble_from_embedded(&embedded, config()).unwrap();

    let file_frames = vec![
        Frame { delay: d0, source: FrameSource::FilePath(String::from("0.png")), left: 0, top: 0 },
        Frame { delay: d1, source: FrameSource::FilePath(String::from("1.png")), left: 1, top: 0 },
    ];
    let mut session = AssembleSession::new(file_frames, config()).unwrap();
    assert_eq!(session.next_path().unwrap(), "0.png");
    session.supply(&png0).unwrap();
    assert_eq!(session.next_path().unwrap(), "1.png");
    session.supply(&png1).unwrap();
    assert!(session.next_path().is_none());
    let by_files = session.finish().unwrap();

    assert_eq!(by_embedded, by_files);
}

#[test]
fn delay_is_normalized_to_container_precision() {
    // 1000/10 ms is exactly 100 ms; the container stores hundredths of a
    // second, so the delay decodes as 100/1.
    let png0 = png_bytes(2, 2, solid(2, 2, [9, 9, 9]));
    let animation = AnimationSpec {
        file: String::from("n.gif"),
        frames: vec![embedded_frame(Delay { numerator: 1000, denominator: 10 }, 0, 0, &png0)],
    };
    let gif = assemble_from_embedded(&animation, config()).unwrap();
    let out = disassemble("n.gif", &gif, "d").unwrap();
    assert_eq!(out.animation.frames[0].delay, Delay { numerator: 100, denominator: 1 });
}

#[test]
fn repeat_modes_change_the_container() {
    let png0 = png_bytes(2, 2, solid(2, 2, [1, 2, 3]));
    let animation = AnimationSpec {
        file: String::from("r.gif"),
        frames: vec![embedded_frame(Delay { numerator: 10, denominator: 1 }, 0, 0, &png0)],
    };
    let once = EncodeConfig { repeat: RepeatMode::Once, speed: 10 };
    let forever = EncodeConfig { repeat: RepeatMode::Infinite, speed: 10 };
    let thrice = EncodeConfig { repeat: RepeatMode::Finite(3), speed: 10 };

    let b_once = assemble_from_embedded(&animation, once).unwrap();
    let b_forever = assemble_from_embedded(&animation, forever).unwrap();
    let b_thrice = assemble_from_embedded(&animation, thrice).unwrap();

    assert_ne!(b_once, b_forever);
    assert_ne!(b_once, b_thrice);
    assert_ne!(b_forever, b_thrice);
}

#[test]
fn frame_files_are_numbered_in_decode_order() {
    let mut frames = Vec::new();
    for i in 0..12u32 {
        let png = png_bytes(2, 2, solid(2, 2, [(i * 20) as u8, 0, 0]));
        frames.push(embedded_frame(Delay { numerator: 10, denominator: 1 }, 0, 0, &png));
    }
    let animation = AnimationSpec { file: String::from("m.gif"), frames };
    let gif = assemble_from_embedded(&animation, config()).unwrap();
    let out = disassemble("m.gif", &gif, "frames").unwrap();
    assert_eq!(out.files.len(), 12);
    for i in 0..12usize {
        assert_eq!(out.files[i].path, format!("frames/{}.png", i));
    }
}
