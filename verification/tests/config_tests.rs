use image_store::config::ImageConfig;
use image_store::format::{classify, FormatKind};
use image_store::records::CommandResult;

#[test]
fn test_image_config_defaults() {
    let config = ImageConfig::default();
    assert_eq!(config.display_max_width, 1200);
    assert_eq!(config.thumbnail_max_width, 300);
    assert_eq!(config.display_quality, 85);
    assert_eq!(config.thumbnail_quality, 75);
}

#[test]
fn classify_recognizes_magic_numbers() {
    let png = vec![0x89, 0x50, 0x4e, 0x47, 0x0d, 0x0a, 0x1a, 0x0a, 0, 0];
    assert_eq!(classify(&png), FormatKind::Png);
    let jpeg = vec![0xff, 0xd8, 0xff, 0xe0, 0x00];
    assert_eq!(classify(&jpeg), FormatKind::Jpeg);
    let webp = vec![
        0x52, 0x49, 0x46, 0x46, 0x10, 0x00, 0x00, 0x00, 0x57, 0x45, 0x42, 0x50,
    ];
    assert_eq!(classify(&webp), FormatKind::WebP);
    let other = vec![0x47, 0x49, 0x46, 0x38, 0x39, 0x61];
    assert_eq!(classify(&other), FormatKind::Unknown);
    assert_eq!(classify(&vec![]), FormatKind::Unknown);
}

#[test]
fn command_result_constructors() {
    let ok: CommandResult<u32> = CommandResult::success(7);
    assert!(ok.success);
    assert_eq!(ok.data, Some(7));
    assert!(ok.error.is_none());

    let err: CommandResult<u32> = CommandResult::error(String::from("boom"));
    assert!(!err.success);
    assert!(err.data.is_none());
    assert_eq!(err.error, Some(String::from("boom")));
}
