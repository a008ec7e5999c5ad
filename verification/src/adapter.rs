//! The still-image adapter: uniform access to the external still-image
//! codec for the two frame-source encodings. File-resident frames arrive as
//! raw file bytes and are decoded with format sniffing; embedded frames are
//! first decoded from transport text (base64) and then decoded as PNG, the
//! fixed format the encoder side always produces. Every result is
//! normalized to RGBA with 8 bits per channel.

use vstd::prelude::*;
use crate::model::{FrameError, FrameSource, RawImage, RawImageV, SourceV};

verus! {

/// The RGBA image that the still-image codec decodes from `data` by
/// sniffing the format, or `None` when the bytes are no valid still image.
pub uninterp spec fn image_decoded(data: Seq<u8>) -> Option<RawImageV>;

/// The RGBA image that the still-image codec decodes from `data` read as
/// PNG, or `None` when the bytes are not a valid PNG image.
pub uninterp spec fn png_decoded(data: Seq<u8>) -> Option<RawImageV>;

/// The PNG bytes that the still-image codec produces for `image`.
pub uninterp spec fn png_encoded(image: RawImageV) -> Seq<u8>;

/// The bytes that the transport text-encoding (base64) decodes from `text`,
/// or `None` when the text is not valid transport-encoded data.
pub uninterp spec fn base64_decoded(text: Seq<char>) -> Option<Seq<u8>>;

/// Relies on `image::load_from_memory`: decodes a still image of any
/// supported format, sniffed from the bytes alone, and
/// `DynamicImage::into_rgba8` normalizes it to an RGBA buffer of exactly 4
/// bytes per pixel.
#[verifier::external_body]
fn image_decode_bytes(data: &Vec<u8>) -> (r: Option<RawImage>)
    ensures
        r is Some <==> image_decoded(data@) is Some,
        r is Some ==> r->0@ == image_decoded(data@)->0 && image_decoded(data@)->0.wf(),
{
    let img = image::load_from_memory(data.as_slice()).ok()?.into_rgba8();
    Some(RawImage { width: img.width(), height: img.height(), pixels: img.into_raw() })
}

/// Relies on `image::load_from_memory_with_format` with the PNG format: the
/// bytes are decoded as PNG without sniffing, and
/// `DynamicImage::into_rgba8` normalizes the result to an RGBA buffer of
/// exactly 4 bytes per pixel.
#[verifier::external_body]
fn png_decode_bytes(data: &Vec<u8>) -> (r: Option<RawImage>)
    ensures
        r is Some <==> png_decoded(data@) is Some,
        r is Some ==> r->0@ == png_decoded(data@)->0 && png_decoded(data@)->0.wf(),
{
    let img = image::load_from_memory_with_format(data.as_slice(), image::ImageFormat::Png)
        .ok()?
        .into_rgba8();
    Some(RawImage { width: img.width(), height: img.height(), pixels: img.into_raw() })
}

/// Relies on `image::ImageBuffer::write_to` with the PNG format: encoding
/// an RGBA buffer with nonzero dimensions and exactly 4 bytes per pixel
/// into an in-memory writer cannot fail (the PNG encoder rejects only zero
/// dimensions), so the result is the codec's PNG encoding of the image.
#[verifier::external_body]
pub(crate) fn png_encode_image(image: &RawImage) -> (r: Vec<u8>)
    requires
        image@.wf(),
        1 <= image.width <= 0xFFFF,
        1 <= image.height <= 0xFFFF,
    ensures
        r@ == png_encoded(image@),
{
    let buf = image::RgbaImage::from_raw(image.width, image.height, image.pixels.clone()).unwrap();
    let mut out = std::io::Cursor::new(Vec::new());
    buf.write_to(&mut out, image::ImageFormat::Png).unwrap();
    out.into_inner()
}

/// Relies on `base64::decode`: decodes standard base64 text to the bytes it
/// carries, and fails exactly on text that is not valid base64.
#[verifier::external_body]
fn base64_decode_text(text: &str) -> (r: Option<Vec<u8>>)
    ensures
        r is Some <==> base64_decoded(text@) is Some,
        r is Some ==> r->0@ == base64_decoded(text@)->0,
{
    base64::decode(text).ok()
}

/// What loading a frame source yields for the embedded-data assembler: the
/// transport text is decoded to bytes, the bytes are decoded as PNG, and a
/// file-path source is the wrong kind for this assembler.
pub open spec fn load_embedded_model(source: SourceV) -> Result<RawImageV, FrameError> {
    match source {
        SourceV::Embedded(text) => match base64_decoded(text) {
            Option::Some(bytes) => match png_decoded(bytes) {
                Option::Some(image) => Result::Ok(image),
                Option::None => Result::Err(FrameError::StillImageDecode),
            },
            Option::None => Result::Err(FrameError::TransportDecode),
        },
        SourceV::File(_) => Result::Err(FrameError::WrongSourceKind),
    }
}

/// What loading file bytes yields for the file-backed assembler: the bytes
/// are decoded as a still image with format sniffing.
pub open spec fn load_file_model(data: Seq<u8>) -> Result<RawImageV, FrameError> {
    match image_decoded(data) {
        Option::Some(image) => Result::Ok(image),
        Option::None => Result::Err(FrameError::StillImageDecode),
    }
}

/// Load the still image of an embedded frame source: decode the transport
/// text, then decode the carried bytes as PNG.
pub fn load_embedded(source: &FrameSource) -> (r: Result<RawImage, FrameError>)
    ensures
        r is Ok <==> load_embedded_model(source@) is Ok,
        r is Ok ==> r->Ok_0@ == load_embedded_model(source@)->Ok_0 && r->Ok_0@.wf(),
        r is Err ==> r->Err_0 == load_embedded_model(source@)->Err_0,
{
    match source {
        FrameSource::FilePath(_) => Err(FrameError::WrongSourceKind),
        FrameSource::EmbeddedData(text) => {
            let bytes = match base64_decode_text(text.as_str()) {
                Option::Some(b) => b,
                Option::None => {
                    return Err(FrameError::TransportDecode);
                },
            };
            match png_decode_bytes(&bytes) {
                Option::Some(image) => Ok(image),
                Option::None => Err(FrameError::StillImageDecode),
            }
        },
    }
}

/// Load the still image of a file-backed frame from the file's raw bytes,
/// sniffing the image format.
pub fn load_file_bytes(data: &Vec<u8>) -> (r: Result<RawImage, FrameError>)
    ensures
        r is Ok <==> load_file_model(data@) is Ok,
        r is Ok ==> r->Ok_0@ == load_file_model(data@)->Ok_0 && r->Ok_0@.wf(),
        r is Err ==> r->Err_0 == load_file_model(data@)->Err_0,
{
    match image_decode_bytes(data) {
        Option::Some(image) => Ok(image),
        Option::None => Err(FrameError::StillImageDecode),
    }
}

} // verus!
