use plume::imaging::metadata::{
    classify_image_type, extract_metadata, extract_png_dimensions, is_typical_screen_resolution,
    ColorSpace, Dimensions, ImageMetadata, ImageType,
};

#[test]
fn test_invalid_dimensions() {
    assert!(Dimensions::new(0, 100).is_err());
    assert!(Dimensions::new(100, 0).is_err());
}

#[test]
fn test_color_space() {
    assert_eq!(ColorSpace::RGB.bytes_per_pixel(), 3);
    assert_eq!(ColorSpace::RGBA.bytes_per_pixel(), 4);
    assert!(ColorSpace::RGBA.has_alpha());
    assert!(!ColorSpace::RGB.has_alpha());
}

#[test]
fn test_lossy_suitability() {
    let dims = Dimensions::new(1000, 1000).unwrap();
    let mut metadata = ImageMetadata::new("jpg".to_string(), dims, ColorSpace::RGB, 100000);

    metadata.image_type = ImageType::Photo;
    assert!(metadata.is_suitable_for_lossy());

    metadata.image_type = ImageType::Logo;
    assert!(!metadata.is_suitable_for_lossy());

    metadata.image_type = ImageType::Screenshot;
    assert!(!metadata.is_suitable_for_lossy());
}

#[test]
fn test_classify_image_type() {
    let small_dims = Dimensions::new(64, 64).unwrap();
    let small_metadata =
        ImageMetadata::new("png".to_string(), small_dims, ColorSpace::RGBA, 1000);

    assert_eq!(classify_image_type(&small_metadata), ImageType::Logo);

    let screenshot_dims = Dimensions::new(1920, 1080).unwrap();
    let screenshot_metadata =
        ImageMetadata::new("png".to_string(), screenshot_dims, ColorSpace::RGB, 100000);

    assert_eq!(
        classify_image_type(&screenshot_metadata),
        ImageType::Screenshot
    );
}

#[test]
fn test_dimensions() {
    let dims = Dimensions::new(1920, 1080).unwrap();
    assert_eq!(dims.pixel_count(), 2_073_600);
    assert_eq!(dims.aspect_ratio(), 1_777_777);
    assert!(dims.is_landscape());
    assert!(!dims.is_portrait());
    assert!(!dims.is_square());

    let square = Dimensions::new(100, 100).unwrap();
    assert!(square.is_square());
}

#[test]
fn test_metadata_calculations() {
    let dims = Dimensions::new(100, 100).unwrap();
    let metadata = ImageMetadata::new("png".to_string(), dims, ColorSpace::RGB, 1000);

    assert_eq!(metadata.uncompressed_size_bytes(), 30000);
    assert_eq!(metadata.compression_ratio(), 33_333);
    assert_eq!(metadata.recommended_output_format(), "webp");
}

#[test]
fn zero_dimensions_message() {
    match Dimensions::new(0, 7) {
        Err(e) => assert_eq!(e.to_string(), "Invalid dimensions: Dimensions cannot be zero: 0x7"),
        Ok(_) => panic!("zero width accepted"),
    }
}

#[test]
fn classification_by_resolution_and_colors() {
    let mut metadata = ImageMetadata::new(
        "png".to_string(),
        Dimensions::new(1366, 768).unwrap(),
        ColorSpace::RGB,
        1,
    );
    assert_eq!(classify_image_type(&metadata), ImageType::Screenshot);
    metadata.dimensions = Dimensions::new(1500, 1000).unwrap();
    assert_eq!(classify_image_type(&metadata), ImageType::Photo);
    metadata.dimensions = Dimensions::new(1024, 768).unwrap();
    assert_eq!(classify_image_type(&metadata), ImageType::Screenshot);
    metadata.dimensions = Dimensions::new(200, 200).unwrap();
    assert_eq!(classify_image_type(&metadata), ImageType::Unknown);
    metadata.estimated_colors = Some(10);
    assert_eq!(classify_image_type(&metadata), ImageType::Logo);
    metadata.estimated_colors = Some(500);
    assert_eq!(classify_image_type(&metadata), ImageType::Graphic);
    metadata.estimated_colors = Some(5000);
    assert_eq!(classify_image_type(&metadata), ImageType::Photo);
    metadata.dimensions = Dimensions::new(4000, 1000).unwrap();
    metadata.estimated_colors = None;
    assert_eq!(classify_image_type(&metadata), ImageType::Unknown);
    assert!(is_typical_screen_resolution(3840, 2160));
    assert!(!is_typical_screen_resolution(1080, 1920));
}

#[test]
fn png_header_is_read() {
    let mut png_data = vec![0x89, 0x50, 0x4E, 0x47, 0x0D, 0x0A, 0x1A, 0x0A];
    png_data.extend(vec![0; 16]);
    png_data[16..20].copy_from_slice(&1920u32.to_be_bytes());
    png_data[20..24].copy_from_slice(&1080u32.to_be_bytes());
    assert_eq!(extract_png_dimensions(&png_data).unwrap(), (1920, 1080));
    let metadata = extract_metadata(&png_data, "PNG").unwrap();
    assert_eq!(metadata.format, "PNG");
    assert_eq!(metadata.dimensions.width, 1920);
    assert_eq!(metadata.dimensions.height, 1080);
    assert_eq!(metadata.file_size_bytes, 24);
    assert!(extract_png_dimensions(&png_data[..23]).is_err());
    png_data[0] = 0;
    assert_eq!(extract_png_dimensions(&png_data).unwrap(), (1920, 1080));
    png_data[0] = 0x89;
    png_data[16..20].copy_from_slice(&0u32.to_be_bytes());
    assert_eq!(extract_png_dimensions(&png_data).unwrap(), (0, 1080));
    assert!(extract_metadata(&png_data, "png").is_err());
    assert!(extract_metadata(&[], "gif").is_err());
    assert_eq!(extract_metadata(&[], "jpg").unwrap().dimensions.width, 1920);
}

#[test]
fn recommended_format_for_transparent_logo() {
    let mut metadata = ImageMetadata::new(
        "png".to_string(),
        Dimensions::new(50, 50).unwrap(),
        ColorSpace::RGBA,
        1,
    );
    metadata.image_type = ImageType::Logo;
    assert_eq!(metadata.recommended_output_format(), "png");
    metadata.has_transparency = false;
    assert_eq!(metadata.recommended_output_format(), "webp");
}
