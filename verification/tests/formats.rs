use plume::compression::formats::OutputFormat;

#[test]
fn test_format_extension() {
    assert_eq!(OutputFormat::Png.extension(), "png");
    assert_eq!(OutputFormat::Jpeg.extension(), "jpg");
    assert_eq!(OutputFormat::WebP.extension(), "webp");
}

#[test]
fn test_from_string() {
    assert_eq!(OutputFormat::from_string("png"), Some(OutputFormat::Png));
    assert_eq!(OutputFormat::from_string("JPG"), Some(OutputFormat::Jpeg));
    assert_eq!(OutputFormat::from_string("webp"), Some(OutputFormat::WebP));
    assert_eq!(OutputFormat::from_string("unknown"), None);
}

#[test]
fn test_lossless_support() {
    assert!(OutputFormat::Png.supports_lossless());
    assert!(OutputFormat::WebP.supports_lossless());
    assert!(!OutputFormat::Jpeg.supports_lossless());
}

#[test]
fn format_names_and_mime_types() {
    assert_eq!(OutputFormat::Png.mime_type(), "image/png");
    assert_eq!(OutputFormat::Jpeg.mime_type(), "image/jpeg");
    assert_eq!(OutputFormat::WebP.mime_type(), "image/webp");
    assert_eq!(OutputFormat::Png.name(), "PNG");
    assert_eq!(OutputFormat::Jpeg.name(), "JPEG");
    assert_eq!(OutputFormat::WebP.name(), "WebP");
    assert_eq!(OutputFormat::Jpeg.token(), "jpeg");
}

#[test]
fn from_string_ignores_case_and_accepts_both_jpeg_spellings() {
    assert_eq!(OutputFormat::from_string("JPEG"), Some(OutputFormat::Jpeg));
    assert_eq!(OutputFormat::from_string("WebP"), Some(OutputFormat::WebP));
    assert_eq!(OutputFormat::from_string("PNG"), Some(OutputFormat::Png));
    assert_eq!(OutputFormat::from_string(""), None);
    assert_eq!(OutputFormat::from_lowercase("JPG"), None);
}
