use vstd::prelude::*;

use crate::error::ImageError;

verus! {

#[verifier::external_type_specification]
#[verifier::external_body]
pub struct ExDynamicImage(image::DynamicImage);

/// What `image::load_from_memory` yields for a byte buffer: `None` when the
/// bytes do not parse as a supported image, otherwise the decoded pixel
/// content (kept abstract) together with the image's width and height.
pub uninterp spec fn decode_of(bytes: Seq<u8>) -> Option<(Seq<u8>, u32, u32)>;

/// The pixel content produced by `DynamicImage::resize` with the `Lanczos3`
/// filter when an image of the given content and dimensions is scaled down to
/// the width bound.
pub uninterp spec fn scaled_of(content: Seq<u8>, width: u32, height: u32, max_w: u32) -> Seq<u8>;

/// The byte stream produced by flattening an image of the given content and
/// dimensions to three channels and serializing it as JPEG at the given
/// quality.
pub uninterp spec fn jpeg_of(content: Seq<u8>, width: u32, height: u32, quality: u8) -> Seq<u8>;

/// An in-memory pixel buffer with known dimensions, decoded once per ingest.
/// Its fields stay private so that a `Frame` can only come out of the trusted
/// wrappers below, whose contracts pin the model of each one they return.
pub struct Frame {
    img: image::DynamicImage,
    width: u32,
    height: u32,
    content: Ghost<Seq<u8>>,
}

impl Frame {
    /// The width of the pixel buffer.
    pub closed spec fn spec_width(self) -> u32 {
        self.width
    }

    /// The height of the pixel buffer.
    pub closed spec fn spec_height(self) -> u32 {
        self.height
    }

    /// The abstract pixel content the contracts speak of.
    pub closed spec fn model(self) -> Seq<u8> {
        self.content@
    }

    pub fn width(&self) -> (r: u32)
        ensures
            r == self.spec_width(),
    {
        self.width
    }

    pub fn height(&self) -> (r: u32)
        ensures
            r == self.spec_height(),
    {
        self.height
    }
}

/// A fresh model field for a `Frame` built inside a trusted wrapper; the
/// wrapper's own contract is what pins the field's value. Ghost values are
/// erased when the crate is compiled, so the wrappers may call this.
fn unmodeled_content() -> Ghost<Seq<u8>> {
    Ghost(Seq::empty())
}

/// Relies on `image::load_from_memory`: decoding is a deterministic function
/// of the bytes, and it succeeds exactly when the bytes parse as an image of
/// a supported format.
#[verifier::external_body]
pub fn decode_frame(bytes: &Vec<u8>) -> (r: Result<Frame, ImageError>)
    ensures
        r is Ok <==> decode_of(bytes@) is Some,
        r is Ok ==> r->Ok_0.model() == decode_of(bytes@).unwrap().0,
        r is Ok ==> r->Ok_0.spec_width() == decode_of(bytes@).unwrap().1,
        r is Ok ==> r->Ok_0.spec_height() == decode_of(bytes@).unwrap().2,
        r is Err ==> r->Err_0 == ImageError::Decode,
{
    match image::load_from_memory(bytes.as_slice()) {
        Ok(img) => {
            let width = img.width();
            let height = img.height();
            Ok(Frame { img, width, height, content: unmodeled_content() })
        }
        Err(_) => Err(ImageError::Decode),
    }
}

/// Relies on `DynamicImage::resize` with the `Lanczos3` filter and the
/// crate's `resize_dimensions`: when scaling down to a width bound (with an
/// unbounded height), the result's width is the bound, its height is the
/// aspect-preserving height rounded to the nearest pixel (at least one), and
/// the pixel content is a deterministic function of the image and the bound.
#[verifier::external_body]
pub fn resize_frame(frame: &Frame, max_w: u32) -> (r: Frame)
    requires
        1 <= max_w < frame.spec_width(),
    ensures
        r.spec_width() == max_w,
        r.spec_height() >= 1,
        r.spec_height() as int * frame.spec_width() as int
            <= frame.spec_height() as int * max_w as int + frame.spec_width() as int,
        r.spec_height() as int * frame.spec_width() as int + frame.spec_width() as int
            >= frame.spec_height() as int * max_w as int,
        r.model() == scaled_of(frame.model(), frame.spec_width(), frame.spec_height(), max_w),
{
    let img = frame.img.resize(max_w, u32::MAX, image::imageops::FilterType::Lanczos3);
    let width = img.width();
    let height = img.height();
    Frame { img, width, height, content: unmodeled_content() }
}

/// Relies on `DynamicImage::to_rgb8` and on
/// `JpegEncoder::{new_with_quality, encode}` writing to an in-memory buffer:
/// flattening to three channels keeps the dimensions, encoding succeeds
/// exactly when both dimensions lie in 1..=65535, and the bytes produced are
/// a deterministic function of the pixel content, the dimensions and the
/// quality.
#[verifier::external_body]
pub fn encode_jpeg(frame: &Frame, quality: u8) -> (r: Result<Vec<u8>, ImageError>)
    requires
        1 <= quality <= 100,
    ensures
        r is Ok <==> (1 <= frame.spec_width() <= 65535 && 1 <= frame.spec_height() <= 65535),
        r is Ok ==> r->Ok_0@ == jpeg_of(
            frame.model(),
            frame.spec_width(),
            frame.spec_height(),
            quality,
        ),
        r is Err ==> r->Err_0 == ImageError::Encode,
{
    let rgb = frame.img.to_rgb8();
    let mut out: Vec<u8> = Vec::new();
    let mut encoder = image::codecs::jpeg::JpegEncoder::new_with_quality(&mut out, quality);
    match encoder.encode(rgb.as_raw(), rgb.width(), rgb.height(), image::ExtendedColorType::Rgb8) {
        Ok(()) => Ok(out),
        Err(_) => Err(ImageError::Encode),
    }
}

} // verus!
