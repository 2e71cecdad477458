use vstd::prelude::*;

verus! {

/// Container format of a source image, recognized from its leading bytes.
/// Anything that is not PNG, JPEG or WEBP falls under `Unknown`, which the
/// pipeline treats as JPEG-family for the output extension.
#[derive(Debug, Clone, Copy, PartialEq, Eq, Structural)]
pub enum FormatKind {
    Png,
    Jpeg,
    WebP,
    Unknown,
}

/// The PNG signature: eight fixed bytes at the start of every PNG stream.
pub open spec fn spec_is_png(bytes: Seq<u8>) -> bool {
    &&& bytes.len() >= 8
    &&& bytes[0] == 0x89u8
    &&& bytes[1] == 0x50u8
    &&& bytes[2] == 0x4eu8
    &&& bytes[3] == 0x47u8
    &&& bytes[4] == 0x0du8
    &&& bytes[5] == 0x0au8
    &&& bytes[6] == 0x1au8
    &&& bytes[7] == 0x0au8
}

/// A JPEG stream starts with the SOI marker followed by another marker byte.
pub open spec fn spec_is_jpeg(bytes: Seq<u8>) -> bool {
    &&& bytes.len() >= 3
    &&& bytes[0] == 0xffu8
    &&& bytes[1] == 0xd8u8
    &&& bytes[2] == 0xffu8
}

/// A WEBP stream is a RIFF container whose form tag is "WEBP".
pub open spec fn spec_is_webp(bytes: Seq<u8>) -> bool {
    &&& bytes.len() >= 12
    &&& bytes[0] == 0x52u8
    &&& bytes[1] == 0x49u8
    &&& bytes[2] == 0x46u8
    &&& bytes[3] == 0x46u8
    &&& bytes[8] == 0x57u8
    &&& bytes[9] == 0x45u8
    &&& bytes[10] == 0x42u8
    &&& bytes[11] == 0x50u8
}

/// Classification of a byte buffer by its magic numbers.
pub open spec fn spec_classify(bytes: Seq<u8>) -> FormatKind {
    if spec_is_png(bytes) {
        FormatKind::Png
    } else if spec_is_jpeg(bytes) {
        FormatKind::Jpeg
    } else if spec_is_webp(bytes) {
        FormatKind::WebP
    } else {
        FormatKind::Unknown
    }
}

/// Determine a source image's container format from its bytes.
pub fn classify(bytes: &Vec<u8>) -> (r: FormatKind)
    ensures
        r == spec_classify(bytes@),
{
    if bytes.len() >= 8 && bytes[0] == 0x89 && bytes[1] == 0x50 && bytes[2] == 0x4e
        && bytes[3] == 0x47 && bytes[4] == 0x0d && bytes[5] == 0x0a && bytes[6] == 0x1a
        && bytes[7] == 0x0a {
        FormatKind::Png
    } else if bytes.len() >= 3 && bytes[0] == 0xff && bytes[1] == 0xd8 && bytes[2] == 0xff {
        FormatKind::Jpeg
    } else if bytes.len() >= 12 && bytes[0] == 0x52 && bytes[1] == 0x49 && bytes[2] == 0x46
        && bytes[3] == 0x46 && bytes[8] == 0x57 && bytes[9] == 0x45 && bytes[10] == 0x42
        && bytes[11] == 0x50 {
        FormatKind::WebP
    } else {
        FormatKind::Unknown
    }
}

/// The output extension chosen for each format; the closed set collapses to
/// "jpg" for anything unrecognized.
pub open spec fn spec_extension_for(kind: FormatKind) -> Seq<char> {
    match kind {
        FormatKind::Png => "png"@,
        FormatKind::WebP => "webp"@,
        FormatKind::Jpeg => "jpg"@,
        FormatKind::Unknown => "jpg"@,
    }
}

/// Map a format to the file extension used for a verbatim original slot.
pub fn extension_for(kind: FormatKind) -> (r: String)
    ensures
        r@ == spec_extension_for(kind),
{
    match kind {
        FormatKind::Png => String::from_str("png"),
        FormatKind::WebP => String::from_str("webp"),
        FormatKind::Jpeg => String::from_str("jpg"),
        FormatKind::Unknown => String::from_str("jpg"),
    }
}

} // verus!
