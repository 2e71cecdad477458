use vstd::prelude::*;

use crate::config::ImageConfig;
use crate::error::ImageError;
use crate::format::{classify, extension_for, spec_classify, spec_extension_for, FormatKind};
use crate::frame::{
    decode_frame, decode_of, encode_jpeg, jpeg_of, resize_frame, scaled_of, Frame,
};
use crate::naming::{
    display_name, fresh_id, original_name, path_in, spec_display_name, spec_original_name,
    spec_path_in, spec_thumbnail_name, thumbnail_name, valid_id,
};

verus! {

/// Source byte length above which the original slot is re-encoded instead of
/// copied verbatim (10 MiB).
pub const REENCODE_BYTE_LIMIT: u64 = 10 * 1024 * 1024;

/// Fixed high JPEG quality used when the original slot is re-encoded.
pub const REENCODE_QUALITY: u8 = 95;

/// Largest width or height the JPEG encoder accepts.
pub const JPEG_MAX_DIM: u32 = 65535;

/// The original-preservation rule: a PNG source, or any source longer than
/// the byte limit, is re-encoded as JPEG; everything else is copied verbatim.
pub open spec fn spec_needs_reencode(bytes: Seq<u8>) -> bool {
    spec_classify(bytes) is Png || bytes.len() > REENCODE_BYTE_LIMIT
}

/// The extension of the original slot: the source format's own extension,
/// collapsing to "jpg" whenever re-encoding occurs.
pub open spec fn spec_original_ext(bytes: Seq<u8>) -> Seq<char> {
    if spec_needs_reencode(bytes) {
        "jpg"@
    } else {
        spec_extension_for(spec_classify(bytes))
    }
}

/// Whether one derived slot of an image with the given source dimensions can
/// be serialized: after scaling to the width budget both dimensions must lie
/// within what the JPEG encoder accepts.
pub open spec fn spec_slot_encodable(w: u32, h: u32, max_w: u32) -> bool {
    if w <= max_w {
        1 <= w <= JPEG_MAX_DIM && 1 <= h <= JPEG_MAX_DIM
    } else {
        max_w <= JPEG_MAX_DIM && h <= JPEG_MAX_DIM
    }
}

/// Inputs on which an ingest call is guaranteed to succeed: the bytes decode,
/// both derived slots are encodable, and, when the original-preservation rule
/// re-encodes, so is the unscaled source.
pub open spec fn spec_ingest_succeeds(bytes: Seq<u8>, config: ImageConfig) -> bool {
    match decode_of(bytes) {
        Option::None => false,
        Option::Some(d) => {
            &&& (spec_needs_reencode(bytes) ==> 1 <= d.1 <= JPEG_MAX_DIM && 1 <= d.2
                <= JPEG_MAX_DIM)
            &&& spec_slot_encodable(d.1, d.2, config.display_max_width)
            &&& spec_slot_encodable(d.1, d.2, config.thumbnail_max_width)
        },
    }
}

/// A JPEG source no longer than the re-encode byte limit is never
/// re-encoded: with `process_image`'s contract, its original slot is
/// byte-for-byte the source.
pub proof fn lemma_small_jpeg_copied_verbatim(bytes: Seq<u8>)
    requires
        spec_classify(bytes) is Jpeg,
        bytes.len() <= REENCODE_BYTE_LIMIT,
    ensures
        !spec_needs_reencode(bytes),
{
}

/// A PNG source is re-encoded whatever its size: with `process_image`'s
/// contract, its original slot is the JPEG re-encode of the decoded buffer,
/// under a "jpg" extension.
pub proof fn lemma_png_always_reencoded(bytes: Seq<u8>)
    requires
        spec_classify(bytes) is Png,
    ensures
        spec_needs_reencode(bytes),
        spec_original_ext(bytes) == "jpg"@,
{
}

/// A source longer than the re-encode byte limit is re-encoded whatever its
/// format: with `process_image`'s contract, its original slot is the JPEG
/// re-encode of the decoded buffer, under a "jpg" extension.
pub proof fn lemma_large_source_reencoded(bytes: Seq<u8>)
    requires
        bytes.len() > REENCODE_BYTE_LIMIT,
    ensures
        spec_needs_reencode(bytes),
        spec_original_ext(bytes) == "jpg"@,
{
}

/// The durable descriptor of one successful ingest: three sibling paths
/// sharing one identifier and destination directory, the byte length written
/// to the original slot, and the dimensions of the source image.
#[derive(Debug)]
pub struct ImageVersion {
    pub original_path: String,
    pub display_path: String,
    pub thumbnail_path: String,
    pub file_size: u64,
    pub width: u32,
    pub height: u32,
}

/// Everything one ingest call produces: the descriptor, the identifier the
/// filenames were derived from, the bytes of the three slots, and the
/// dimensions each encoded slot ended up with.
#[derive(Debug)]
pub struct ProcessedImage {
    pub id: String,
    pub version: ImageVersion,
    pub original_bytes: Vec<u8>,
    pub display_bytes: Vec<u8>,
    pub thumbnail_bytes: Vec<u8>,
    pub display_width: u32,
    pub display_height: u32,
    pub thumbnail_width: u32,
    pub thumbnail_height: u32,
}

/// Scale a frame down to a width budget — never upscaling — and serialize the
/// result as JPEG at the given quality. Returns the encoded bytes together
/// with the width and height of the image they encode: the source dimensions
/// when the source already fits the budget, the budget and the
/// aspect-preserving height (within one pixel) otherwise.
pub fn encode_scaled(frame: &Frame, max_w: u32, quality: u8) -> (r: Result<
    (Vec<u8>, u32, u32),
    ImageError,
>)
    requires
        1 <= quality <= 100,
        max_w >= 1,
    ensures
        frame.spec_width() <= max_w ==> (r is Ok <==> spec_slot_encodable(
            frame.spec_width(),
            frame.spec_height(),
            max_w,
        )),
        frame.spec_width() > max_w && spec_slot_encodable(
            frame.spec_width(),
            frame.spec_height(),
            max_w,
        ) ==> r is Ok,
        r is Ok && frame.spec_width() <= max_w ==> {
            &&& r->Ok_0.1 == frame.spec_width()
            &&& r->Ok_0.2 == frame.spec_height()
            &&& r->Ok_0.0@ == jpeg_of(
                frame.model(),
                frame.spec_width(),
                frame.spec_height(),
                quality,
            )
        },
        r is Ok && frame.spec_width() > max_w ==> {
            &&& r->Ok_0.1 == max_w
            &&& 1 <= r->Ok_0.2
            &&& r->Ok_0.2 as int * frame.spec_width() as int <= frame.spec_height() as int
                * max_w as int + frame.spec_width() as int
            &&& r->Ok_0.2 as int * frame.spec_width() as int + frame.spec_width() as int
                >= frame.spec_height() as int * max_w as int
            &&& r->Ok_0.0@ == jpeg_of(
                scaled_of(frame.model(), frame.spec_width(), frame.spec_height(), max_w),
                max_w,
                r->Ok_0.2,
                quality,
            )
        },
        r is Err ==> r->Err_0 == ImageError::Encode,
{
    if frame.width() > max_w {
        let scaled = resize_frame(frame, max_w);
        proof {
            let h2 = scaled.spec_height() as int;
            let w = frame.spec_width() as int;
            let h = frame.spec_height() as int;
            let m = max_w as int;
            assert(h2 <= h || h2 == 1) by (nonlinear_arith)
                requires
                    h2 * w <= h * m + w,
                    1 <= m < w,
                    h2 >= 1,
                    h >= 0,
            ;
        }
        let h = scaled.height();
        match encode_jpeg(&scaled, quality) {
            Result::Ok(b) => Result::Ok((b, max_w, h)),
            Result::Err(e) => Result::Err(e),
        }
    } else {
        let w = frame.width();
        let h = frame.height();
        match encode_jpeg(frame, quality) {
            Result::Ok(b) => Result::Ok((b, w, h)),
            Result::Err(e) => Result::Err(e),
        }
    }
}

/// One ingest call: classify the source bytes, decode them once, apply the
/// original-preservation rule to the original slot, derive the display and
/// thumbnail slots independently from the same decoded buffer, and derive
/// the three filenames from one fresh identifier. No file is touched here:
/// the caller writes each slot's bytes to its path and owns every
/// filesystem failure; a failure after some writes leaves a partial triplet
/// (no rollback).
pub fn process_image(source: Vec<u8>, dest_dir: &String, config: &ImageConfig) -> (r: Result<
    ProcessedImage,
    ImageError,
>)
    requires
        config.well_formed(),
    ensures
        spec_ingest_succeeds(source@, *config) ==> r is Ok,
        r is Ok ==> decode_of(source@) is Some,
        r is Err ==> (r->Err_0 == ImageError::Decode <==> decode_of(source@) is None),
        r is Err ==> (r->Err_0 == ImageError::Decode || r->Err_0 == ImageError::Encode),
        r is Ok ==> ({
            let p = r->Ok_0;
            let d = decode_of(source@).unwrap();
            &&& valid_id(p.id@)
            &&& p.version.width == d.1
            &&& p.version.height == d.2
            &&& p.version.original_path@ == spec_path_in(
                dest_dir@,
                spec_original_name(p.id@, spec_original_ext(source@)),
            )
            &&& p.version.display_path@ == spec_path_in(dest_dir@, spec_display_name(p.id@))
            &&& p.version.thumbnail_path@ == spec_path_in(dest_dir@, spec_thumbnail_name(p.id@))
            &&& p.version.original_path@ != p.version.display_path@
            &&& p.version.original_path@ != p.version.thumbnail_path@
            &&& p.version.display_path@ != p.version.thumbnail_path@
            &&& p.version.file_size == p.original_bytes@.len()
            &&& (!spec_needs_reencode(source@) ==> p.original_bytes@ == source@)
            &&& (spec_needs_reencode(source@) ==> p.original_bytes@ == jpeg_of(
                d.0,
                d.1,
                d.2,
                REENCODE_QUALITY,
            ))
            &&& (d.1 <= config.display_max_width ==> {
                &&& p.display_width == d.1
                &&& p.display_height == d.2
                &&& p.display_bytes@ == jpeg_of(d.0, d.1, d.2, config.display_quality)
            })
            &&& (d.1 > config.display_max_width ==> {
                &&& p.display_width == config.display_max_width
                &&& 1 <= p.display_height
                &&& p.display_height as int * d.1 as int <= d.2 as int
                    * config.display_max_width as int + d.1 as int
                &&& p.display_height as int * d.1 as int + d.1 as int >= d.2 as int
                    * config.display_max_width as int
                &&& p.display_bytes@ == jpeg_of(
                    scaled_of(d.0, d.1, d.2, config.display_max_width),
                    config.display_max_width,
                    p.display_height,
                    config.display_quality,
                )
            })
            &&& (d.1 <= config.thumbnail_max_width ==> {
                &&& p.thumbnail_width == d.1
                &&& p.thumbnail_height == d.2
                &&& p.thumbnail_bytes@ == jpeg_of(d.0, d.1, d.2, config.thumbnail_quality)
            })
            &&& (d.1 > config.thumbnail_max_width ==> {
                &&& p.thumbnail_width == config.thumbnail_max_width
                &&& 1 <= p.thumbnail_height
                &&& p.thumbnail_height as int * d.1 as int <= d.2 as int
                    * config.thumbnail_max_width as int + d.1 as int
                &&& p.thumbnail_height as int * d.1 as int + d.1 as int >= d.2 as int
                    * config.thumbnail_max_width as int
                &&& p.thumbnail_bytes@ == jpeg_of(
                    scaled_of(d.0, d.1, d.2, config.thumbnail_max_width),
                    config.thumbnail_max_width,
                    p.thumbnail_height,
                    config.thumbnail_quality,
                )
            })
        }),
{
    let id = fresh_id();
    let kind = classify(&source);
    let needs_reencode = source.len() as u64 > REENCODE_BYTE_LIMIT || kind == FormatKind::Png;
    let frame = match decode_frame(&source) {
        Result::Ok(f) => f,
        Result::Err(e) => {
            return Result::Err(e);
        },
    };
    let width = frame.width();
    let height = frame.height();
    let ext = if needs_reencode {
        String::from_str("jpg")
    } else {
        extension_for(kind)
    };
    let original_bytes = if needs_reencode {
        match encode_jpeg(&frame, REENCODE_QUALITY) {
            Result::Ok(b) => b,
            Result::Err(e) => {
                return Result::Err(e);
            },
        }
    } else {
        source
    };
    let display = match encode_scaled(&frame, config.display_max_width, config.display_quality) {
        Result::Ok(t) => t,
        Result::Err(e) => {
            return Result::Err(e);
        },
    };
    let thumb = match encode_scaled(
        &frame,
        config.thumbnail_max_width,
        config.thumbnail_quality,
    ) {
        Result::Ok(t) => t,
        Result::Err(e) => {
            return Result::Err(e);
        },
    };
    let (display_bytes, display_width, display_height) = display;
    let (thumbnail_bytes, thumbnail_width, thumbnail_height) = thumb;
    let o_name = original_name(&id, &ext);
    let d_name = display_name(&id);
    let t_name = thumbnail_name(&id);
    let original_path = path_in(dest_dir, &o_name);
    let display_path = path_in(dest_dir, &d_name);
    let thumbnail_path = path_in(dest_dir, &t_name);
    proof {
        reveal_strlit("jpg");
        reveal_strlit("png");
        reveal_strlit("webp");
        crate::naming::lemma_slots_distinct(id@, id@, ext@);
        if original_path@ == display_path@ {
            crate::naming::lemma_concat_left_cancel(dest_dir@ + "/"@, o_name@, d_name@);
        }
        if original_path@ == thumbnail_path@ {
            crate::naming::lemma_concat_left_cancel(dest_dir@ + "/"@, o_name@, t_name@);
        }
        if display_path@ == thumbnail_path@ {
            crate::naming::lemma_concat_left_cancel(dest_dir@ + "/"@, d_name@, t_name@);
        }
    }
    let file_size = original_bytes.len() as u64;
    Result::Ok(
        ProcessedImage {
            id,
            version: ImageVersion {
                original_path,
                display_path,
                thumbnail_path,
                file_size,
                width,
                height,
            },
            original_bytes,
            display_bytes,
            thumbnail_bytes,
            display_width,
            display_height,
            thumbnail_width,
            thumbnail_height,
        },
    )
}

} // verus!
