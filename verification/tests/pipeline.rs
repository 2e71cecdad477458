use image_store::config::ImageConfig;
use image_store::error::ImageError;
use image_store::images::process_image;

fn test_pattern(width: u32, height: u32) -> image::RgbImage {
    image::ImageBuffer::from_fn(width, height, |x, y| {
        image::Rgb([(x % 251) as u8, (y % 241) as u8, ((x + y) % 239) as u8])
    })
}

fn encoded_bytes(width: u32, height: u32, format: image::ImageFormat) -> Vec<u8> {
    let img = image::DynamicImage::ImageRgb8(test_pattern(width, height));
    let mut out = std::io::Cursor::new(Vec::new());
    img.write_to(&mut out, format).unwrap();
    out.into_inner()
}

fn decoded_dims(bytes: &[u8]) -> (u32, u32) {
    let img = image::load_from_memory(bytes).unwrap();
    (img.width(), img.height())
}

/// A JPEG stream of more than 10 MiB that still decodes as a small image:
/// a tiny JPEG padded with COM segments right after the SOI marker.
fn oversized_jpeg() -> Vec<u8> {
    let small = encoded_bytes(8, 8, image::ImageFormat::Jpeg);
    let mut out = Vec::new();
    out.extend_from_slice(&small[0..2]);
    let payload = vec![0x55u8; 65533];
    for _ in 0..165 {
        out.push(0xff);
        out.push(0xfe);
        out.push(((payload.len() + 2) >> 8) as u8);
        out.push(((payload.len() + 2) & 0xff) as u8);
        out.extend_from_slice(&payload);
    }
    out.extend_from_slice(&small[2..]);
    assert!(out.len() > 10 * 1024 * 1024);
    out
}

/// A JPEG stream padded with COM segments to an exact total length.
fn padded_jpeg(target_len: usize) -> Vec<u8> {
    let small = encoded_bytes(8, 8, image::ImageFormat::Jpeg);
    let mut extra = target_len - small.len();
    let mut out = Vec::new();
    out.extend_from_slice(&small[0..2]);
    let mut push_segment = |out: &mut Vec<u8>, payload_len: usize| {
        out.push(0xff);
        out.push(0xfe);
        out.push(((payload_len + 2) >> 8) as u8);
        out.push(((payload_len + 2) & 0xff) as u8);
        out.extend(std::iter::repeat(0x55u8).take(payload_len));
    };
    while extra >= 65537 {
        push_segment(&mut out, 65533);
        extra -= 65537;
    }
    if extra > 0 {
        assert!(extra >= 4);
        push_segment(&mut out, extra - 4);
    }
    out.extend_from_slice(&small[2..]);
    assert_eq!(out.len(), target_len);
    out
}

#[test]
fn jpeg_source_copied_verbatim() {
    let source = encoded_bytes(16, 12, image::ImageFormat::Jpeg);
    let dir = String::from("out");
    let p = process_image(source.clone(), &dir, &ImageConfig::default()).unwrap();
    assert_eq!(p.original_bytes, source);
    assert_eq!(p.version.file_size, source.len() as u64);
    assert_eq!(p.version.width, 16);
    assert_eq!(p.version.height, 12);
    assert_eq!(p.version.original_path, format!("out/original-{}.jpg", p.id));
    assert_eq!(p.version.display_path, format!("out/display-{}.jpg", p.id));
    assert_eq!(p.version.thumbnail_path, format!("out/thumb-{}.jpg", p.id));
}

#[test]
fn png_source_reencoded_as_jpeg() {
    let source = encoded_bytes(20, 10, image::ImageFormat::Png);
    let dir = String::from("out");
    let p = process_image(source.clone(), &dir, &ImageConfig::default()).unwrap();
    assert_ne!(p.original_bytes, source);
    assert_eq!(
        image::guess_format(&p.original_bytes).unwrap(),
        image::ImageFormat::Jpeg
    );
    assert_eq!(decoded_dims(&p.original_bytes), (20, 10));
    assert!(p.version.original_path.ends_with(".jpg"));
    assert_eq!(p.version.file_size, p.original_bytes.len() as u64);
}

#[test]
fn oversized_source_reencoded() {
    let source = oversized_jpeg();
    let dir = String::from("out");
    let p = process_image(source.clone(), &dir, &ImageConfig::default()).unwrap();
    assert_ne!(p.original_bytes.len(), source.len());
    assert_eq!(
        image::guess_format(&p.original_bytes).unwrap(),
        image::ImageFormat::Jpeg
    );
    assert!(p.version.original_path.ends_with(".jpg"));
    assert_eq!(decoded_dims(&p.original_bytes), (8, 8));
}

#[test]
fn jpeg_of_exactly_the_limit_is_still_copied() {
    let source = padded_jpeg(10 * 1024 * 1024);
    let dir = String::from("out");
    let p = process_image(source.clone(), &dir, &ImageConfig::default()).unwrap();
    assert_eq!(p.original_bytes, source);
    assert_eq!(p.version.original_path, format!("out/original-{}.jpg", p.id));
}

#[test]
fn webp_source_copied_under_its_own_extension() {
    let source = encoded_bytes(12, 9, image::ImageFormat::WebP);
    let dir = String::from("out");
    let p = process_image(source.clone(), &dir, &ImageConfig::default()).unwrap();
    assert_eq!(p.original_bytes, source);
    assert_eq!(p.version.original_path, format!("out/original-{}.webp", p.id));
    assert_eq!(p.version.width, 12);
    assert_eq!(p.version.height, 9);
}

#[test]
fn thumbnail_downscaled_with_aspect_kept() {
    let source = encoded_bytes(100, 40, image::ImageFormat::Png);
    let dir = String::from("out");
    let config = ImageConfig {
        display_max_width: 50,
        thumbnail_max_width: 30,
        display_quality: 85,
        thumbnail_quality: 75,
    };
    let p = process_image(source, &dir, &config).unwrap();
    assert_eq!(p.thumbnail_width, 30);
    assert_eq!(p.thumbnail_height, 12);
    assert_eq!(decoded_dims(&p.thumbnail_bytes), (30, 12));
    assert_eq!(p.display_width, 50);
    assert_eq!(p.display_height, 20);
    assert_eq!(decoded_dims(&p.display_bytes), (50, 20));
    assert_eq!(p.version.width, 100);
    assert_eq!(p.version.height, 40);
}

#[test]
fn small_source_never_upscaled() {
    let source = encoded_bytes(100, 40, image::ImageFormat::Jpeg);
    let dir = String::from("out");
    let p = process_image(source, &dir, &ImageConfig::default()).unwrap();
    assert_eq!(p.display_width, 100);
    assert_eq!(p.display_height, 40);
    assert_eq!(decoded_dims(&p.display_bytes), (100, 40));
    assert_eq!(p.thumbnail_width, 100);
    assert_eq!(p.thumbnail_height, 40);
    assert_eq!(decoded_dims(&p.thumbnail_bytes), (100, 40));
}

#[test]
fn two_ingests_never_collide() {
    let dir = String::from("shared");
    let a = process_image(
        encoded_bytes(10, 10, image::ImageFormat::Jpeg),
        &dir,
        &ImageConfig::default(),
    )
    .unwrap();
    let b = process_image(
        encoded_bytes(10, 10, image::ImageFormat::Jpeg),
        &dir,
        &ImageConfig::default(),
    )
    .unwrap();
    assert_eq!(a.id.len(), 36);
    assert!(a.id.chars().all(|c| c == '-' || c.is_ascii_hexdigit()));
    let paths = [
        &a.version.original_path,
        &a.version.display_path,
        &a.version.thumbnail_path,
        &b.version.original_path,
        &b.version.display_path,
        &b.version.thumbnail_path,
    ];
    for i in 0..paths.len() {
        for j in 0..paths.len() {
            if i != j {
                assert_ne!(paths[i], paths[j]);
            }
        }
    }
}

#[test]
fn unparseable_source_is_a_decode_error() {
    let dir = String::from("out");
    let r = process_image(vec![1, 2, 3, 4], &dir, &ImageConfig::default());
    assert_eq!(r.unwrap_err(), ImageError::Decode);
}

#[test]
fn overwide_png_is_an_encode_error() {
    let source = encoded_bytes(70000, 1, image::ImageFormat::Png);
    let dir = String::from("out");
    let r = process_image(source, &dir, &ImageConfig::default());
    assert_eq!(r.unwrap_err(), ImageError::Encode);
}
