use plume::imaging::analysis::{
    analyze_colors, analyze_compression_potential, assess_image_quality, comprehensive_analysis,
    RiskLevel,
};
use plume::imaging::error::ImageError;
use plume::imaging::metadata::{ColorSpace, Dimensions, ImageMetadata, ImageType};
use plume::imaging::processing::{
    apply_sharpening, auto_crop, convert_color_space, create_progressive_jpeg, optimize_for_web,
    resize_image, ProcessingParams,
};
use plume::imaging::workflow::{
    analyze_image, batch_process_images, calculate_aspect_preserving_dimensions,
    choose_web_params, get_compression_recommendations, prepare_for_web, smart_resize,
};

fn png_header(width: u32, height: u32, extra: usize) -> Vec<u8> {
    let mut data = vec![0x89, 0x50, 0x4E, 0x47, 0x0D, 0x0A, 0x1A, 0x0A];
    data.extend(vec![0; 16]);
    data[16..20].copy_from_slice(&width.to_be_bytes());
    data[20..24].copy_from_slice(&height.to_be_bytes());
    data.extend(vec![7; extra]);
    data
}

#[test]
fn test_processing_params() {
    let params = ProcessingParams::new(150);
    assert_eq!(params.quality, 100);

    let params = ProcessingParams::new(0);
    assert_eq!(params.quality, 1);

    let dims = Dimensions::new(800, 600).unwrap();
    let params = ProcessingParams::new(80).with_resize(dims.clone());
    assert_eq!(params.target_dimensions, Some(dims));
}

#[test]
fn test_resize_image() {
    let dims = Dimensions::new(100, 100).unwrap();
    let metadata = ImageMetadata::new("png".to_string(), dims, ColorSpace::RGB, 30000);

    let data = vec![255u8; 30000];
    let target_dims = Dimensions::new(50, 50).unwrap();

    let result = resize_image(&data, &metadata, &target_dims).unwrap();
    assert_eq!(result.len(), 7500);
}

#[test]
fn test_color_space_conversion() {
    let dims = Dimensions::new(2, 2).unwrap();
    let rgb_data = vec![255, 0, 0, 0, 255, 0, 0, 0, 255, 128, 128, 128];

    let rgba_result =
        convert_color_space(&rgb_data, ColorSpace::RGB, ColorSpace::RGBA, &dims).unwrap();
    assert_eq!(rgba_result.len(), 16);
    assert_eq!(&rgba_result[..4], &[255, 0, 0, 255]);

    let rgb_result =
        convert_color_space(&rgba_result, ColorSpace::RGBA, ColorSpace::RGB, &dims).unwrap();
    assert_eq!(rgb_result.len(), 12);
    assert_eq!(&rgb_result[..3], &[255, 0, 0]);

    let gray_result =
        convert_color_space(&rgb_data, ColorSpace::RGB, ColorSpace::Grayscale, &dims).unwrap();
    assert_eq!(gray_result.len(), 4);
}

#[test]
fn test_optimize_for_web() {
    let dims = Dimensions::new(100, 100).unwrap();
    let metadata = ImageMetadata::new("png".to_string(), dims, ColorSpace::RGB, 30000);

    let data = vec![128u8; 30000];
    let params = ProcessingParams::new(80);

    let result = optimize_for_web(&data, &metadata, &params).unwrap();
    assert!(result.processed_size <= result.original_size);
    assert!(result.size_reduction_percent() >= 0);
    assert!(!result.operations_applied.is_empty());
}

#[test]
fn test_auto_crop() {
    let dims = Dimensions::new(100, 100).unwrap();
    let metadata = ImageMetadata::new("png".to_string(), dims, ColorSpace::RGB, 30000);

    let data = vec![128u8; 30000];
    let (cropped_data, new_dims) = auto_crop(&data, &metadata).unwrap();

    assert!(new_dims.width < metadata.dimensions.width);
    assert!(new_dims.height < metadata.dimensions.height);
    assert!(cropped_data.len() < data.len());
}

#[test]
fn test_apply_sharpening() {
    let data = vec![128u8; 300];

    let result = apply_sharpening(&data, 0).unwrap();
    assert_eq!(result, data);

    let result = apply_sharpening(&data, 500_000).unwrap();
    assert_eq!(result.len(), data.len());

    assert!(apply_sharpening(&data, 1_500_000).is_err());
}

#[test]
fn test_calculate_aspect_preserving_dimensions() {
    let current = Dimensions::new(1920, 1080).unwrap();
    let target = Dimensions::new(800, 800).unwrap();

    let result = calculate_aspect_preserving_dimensions(&current, &target);

    assert_eq!(result.width, 800);
    assert_eq!(result.height, 450);
}

#[test]
fn test_photo_analysis() {
    let dims = Dimensions::new(1920, 1080).unwrap();
    let mut metadata = ImageMetadata::new("jpg".to_string(), dims, ColorSpace::RGB, 500000);
    metadata.image_type = ImageType::Photo;

    let quality = assess_image_quality(&metadata).unwrap();
    assert!(quality.overall_quality > 0);

    let colors = analyze_colors(&metadata).unwrap();
    assert!(colors.unique_color_estimate > 1000);

    let compression = analyze_compression_potential(&metadata, &quality, &colors);
    assert!(compression.lossy_suitable);
    assert!(compression.estimated_savings_percent > 10_000_000);
}

#[test]
fn test_logo_analysis() {
    let dims = Dimensions::new(128, 128).unwrap();
    let mut metadata = ImageMetadata::new("png".to_string(), dims, ColorSpace::RGBA, 5000);
    metadata.image_type = ImageType::Logo;
    metadata.has_transparency = true;

    let quality = assess_image_quality(&metadata).unwrap();
    let colors = analyze_colors(&metadata).unwrap();
    let compression = analyze_compression_potential(&metadata, &quality, &colors);

    assert!(!compression.lossy_suitable);
    assert_eq!(compression.risk_level, RiskLevel::High);
    assert!(compression.recommended_quality > 90);
}

#[test]
fn test_screenshot_analysis() {
    let dims = Dimensions::new(1920, 1080).unwrap();
    let mut metadata = ImageMetadata::new("png".to_string(), dims, ColorSpace::RGB, 1000000);
    metadata.image_type = ImageType::Screenshot;

    let colors = analyze_colors(&metadata).unwrap();
    let quality = assess_image_quality(&metadata).unwrap();
    let compression = analyze_compression_potential(&metadata, &quality, &colors);

    assert!(!compression.lossy_suitable);
    assert_eq!(compression.risk_level, RiskLevel::High);
}

#[test]
fn test_comprehensive_analysis() {
    let dims = Dimensions::new(800, 600).unwrap();
    let mut metadata = ImageMetadata::new("png".to_string(), dims, ColorSpace::RGB, 200000);
    metadata.image_type = ImageType::Graphic;

    let result = comprehensive_analysis(&metadata);
    assert!(result.is_ok());

    let (quality, colors, compression) = result.unwrap();
    assert!(quality.overall_quality > 0);
    assert!(colors.unique_color_estimate > 0);
    assert!(compression.estimated_savings_percent > 0);
}

#[test]
fn test_analyze_image_workflow() {
    let mut png_data = vec![0x89, 0x50, 0x4E, 0x47, 0x0D, 0x0A, 0x1A, 0x0A];
    png_data.extend(vec![0; 16]);
    png_data[16..20].copy_from_slice(&1920u32.to_be_bytes());
    png_data[20..24].copy_from_slice(&1080u32.to_be_bytes());

    let result = analyze_image(&png_data, "png");
    assert!(result.is_ok());

    let (metadata, quality, colors) = result.unwrap();
    assert_eq!(metadata.format, "png");
    assert_eq!(metadata.dimensions.width, 1920);
    assert_eq!(metadata.dimensions.height, 1080);
    assert!(quality.overall_quality > 0);
    assert!(colors.unique_color_estimate > 0);
}

#[test]
fn test_compression_recommendations() {
    let fake_data = vec![0u8; 1000];
    let result = get_compression_recommendations(&fake_data, "jpg");
    assert!(result.is_ok());

    let recommendations = result.unwrap();
    assert!(
        recommendations.recommended_quality >= 1 && recommendations.recommended_quality <= 100
    );
}

#[test]
fn resize_cuts_and_repeats() {
    let metadata = ImageMetadata::new(
        "png".to_string(),
        Dimensions::new(2, 1).unwrap(),
        ColorSpace::RGB,
        6,
    );
    let data = vec![1u8, 2, 3, 4, 5, 6];
    assert_eq!(
        resize_image(&data, &metadata, &Dimensions::new(1, 1).unwrap()).unwrap(),
        vec![1, 2, 3]
    );
    assert_eq!(
        resize_image(&data, &metadata, &Dimensions::new(5, 1).unwrap()).unwrap(),
        vec![1, 2, 3, 4, 5, 6, 1, 2, 3, 4, 5, 6, 1, 2, 3]
    );
    assert_eq!(resize_image(&data, &metadata, &Dimensions::new(2, 1).unwrap()).unwrap(), data);
    assert!(resize_image(&data, &metadata, &Dimensions { width: 0, height: 4 }).is_err());
    assert!(resize_image(&[], &metadata, &Dimensions::new(1, 1).unwrap()).is_err());
    assert_eq!(
        resize_image(&[], &metadata, &Dimensions::new(2, 1).unwrap()).unwrap(),
        Vec::<u8>::new()
    );
}

#[test]
fn conversions_exact() {
    let dims = Dimensions::new(2, 1).unwrap();
    assert_eq!(
        convert_color_space(&[10, 20, 30, 40, 50, 60], ColorSpace::RGB, ColorSpace::RGBA, &dims)
            .unwrap(),
        vec![10, 20, 30, 255, 40, 50, 60, 255]
    );
    assert_eq!(
        convert_color_space(
            &[10, 20, 30, 0, 40, 50, 60, 9],
            ColorSpace::RGBA,
            ColorSpace::RGB,
            &dims
        )
        .unwrap(),
        vec![10, 20, 30, 40, 50, 60]
    );
    assert_eq!(
        convert_color_space(
            &[255, 0, 0, 128, 128, 128],
            ColorSpace::RGB,
            ColorSpace::Grayscale,
            &dims
        )
        .unwrap(),
        vec![76, 128]
    );
    assert_eq!(
        convert_color_space(&[7, 9], ColorSpace::Grayscale, ColorSpace::RGB, &dims).unwrap(),
        vec![7, 7, 7, 9, 9, 9]
    );
    assert_eq!(
        convert_color_space(&[1, 2, 3], ColorSpace::CMYK, ColorSpace::CMYK, &dims).unwrap(),
        vec![1, 2, 3]
    );
    assert!(convert_color_space(&[1, 2, 3], ColorSpace::RGB, ColorSpace::RGBA, &dims).is_err());
    assert!(convert_color_space(
        &[1, 2, 3, 4, 5, 6, 7, 8],
        ColorSpace::CMYK,
        ColorSpace::RGB,
        &dims
    )
    .is_err());
}

#[test]
fn web_optimization_steps() {
    let metadata = ImageMetadata::new(
        "png".to_string(),
        Dimensions::new(10, 10).unwrap(),
        ColorSpace::RGBA,
        400,
    );
    let data: Vec<u8> = (0..400).map(|i| (i % 251) as u8).collect();
    let mut params = ProcessingParams::new(50).with_resize(Dimensions::new(5, 5).unwrap());
    params.optimize_alpha = false;
    let result = optimize_for_web(&data, &metadata, &params).unwrap();
    assert_eq!(
        result.operations_applied,
        vec![
            "Resize to 5x5".to_string(),
            "Remove unused alpha channel".to_string(),
            "Apply quality 50".to_string(),
            "Remove metadata".to_string(),
        ]
    );
    assert_eq!(result.original_size, 400);
    assert_eq!(result.processed_size, 30);
    assert_eq!(result.data.len(), 30);
    assert_eq!(&result.data[..6], &[0, 1, 2, 4, 5, 6]);
    assert_eq!(result.size_reduction_percent(), 92_500_000);

    let keep = ProcessingParams::new(100).with_metadata_preservation();
    let result = optimize_for_web(&data, &metadata, &keep).unwrap();
    assert!(result.operations_applied.is_empty());
    assert_eq!(result.data, data);

    let lossless = ProcessingParams::new(50).with_lossless();
    let result = optimize_for_web(&data, &metadata, &lossless).unwrap();
    assert_eq!(result.operations_applied, vec!["Remove metadata".to_string()]);
    assert_eq!(result.data, data);

    let bad = ProcessingParams::new(50).with_resize(Dimensions { width: 0, height: 1 });
    assert!(optimize_for_web(&data, &metadata, &bad).is_err());
}

#[test]
fn crop_and_sharpen_exact() {
    let metadata = ImageMetadata::new(
        "png".to_string(),
        Dimensions::new(1, 3).unwrap(),
        ColorSpace::Grayscale,
        3,
    );
    let (data, dims) = auto_crop(&[1, 2, 3], &metadata).unwrap();
    assert_eq!(dims, Dimensions { width: 1, height: 2 });
    assert_eq!(data, vec![1, 2]);

    assert_eq!(
        apply_sharpening(&[0, 100, 128, 200, 255], 1_000_000).unwrap(),
        vec![0, 94, 128, 214, 255]
    );
    assert_eq!(apply_sharpening(&[0, 127, 129], 500_000).unwrap(), vec![0, 126, 129]);
    assert!(apply_sharpening(&[1], 1_000_001).is_err());
}

#[test]
fn progressive_stream_layout() {
    let metadata = ImageMetadata::new(
        "JPEG".to_string(),
        Dimensions::new(10, 10).unwrap(),
        ColorSpace::RGB,
        100,
    );
    let data: Vec<u8> = (0..100).collect();
    let stream = create_progressive_jpeg(&data, &metadata, 50).unwrap();
    assert_eq!(&stream[..23], b"PROGRESSIVE_JPEG_HEADER");
    assert_eq!(&stream[23..], &data[..50]);
    let full = create_progressive_jpeg(&data, &metadata, 100).unwrap();
    assert_eq!(&full[23..], &data[..]);
    let over = create_progressive_jpeg(&data, &metadata, 200).unwrap();
    assert_eq!(&over[23..], &data[..60]);
    let png = ImageMetadata::new(
        "png".to_string(),
        Dimensions::new(10, 10).unwrap(),
        ColorSpace::RGB,
        100,
    );
    assert!(create_progressive_jpeg(&data, &png, 50).is_err());
}

#[test]
fn quality_assessment_exact() {
    let mut metadata = ImageMetadata::new(
        "jpg".to_string(),
        Dimensions::new(100, 100).unwrap(),
        ColorSpace::RGB,
        3001,
    );
    metadata.image_type = ImageType::Photo;
    let quality = assess_image_quality(&metadata).unwrap();
    assert_eq!(quality.sharpness_score, 300_000);
    assert_eq!(quality.noise_level, 700_000);
    assert_eq!(quality.contrast_score, 700_000);
    assert_eq!(quality.color_richness, 800_000);
    assert_eq!(quality.overall_quality, 430_000);
    metadata.file_size_bytes = 3000;
    assert_eq!(assess_image_quality(&metadata).unwrap().sharpness_score, 600_000);
    metadata.file_size_bytes = 1500;
    assert_eq!(assess_image_quality(&metadata).unwrap().sharpness_score, 900_000);
    metadata.format = "PNG".to_string();
    let quality = assess_image_quality(&metadata).unwrap();
    assert_eq!(quality.sharpness_score, 950_000);
    assert_eq!(quality.noise_level, 100_000);
    assert_eq!(quality.overall_quality, 870_000);
    metadata.format = "tiff".to_string();
    assert_eq!(assess_image_quality(&metadata).unwrap().sharpness_score, 500_000);
}

#[test]
fn potential_exact() {
    let mut metadata = ImageMetadata::new(
        "png".to_string(),
        Dimensions::new(1000, 1000).unwrap(),
        ColorSpace::RGB,
        100_000,
    );
    metadata.image_type = ImageType::Photo;
    let (quality, colors, potential) = comprehensive_analysis(&metadata).unwrap();
    assert_eq!(colors.unique_color_estimate, 65536);
    assert_eq!(colors.dominant_colors.len(), 3);
    assert_eq!(colors.average_brightness, 500_000);
    assert_eq!(colors.color_variance, 800_000);
    assert_eq!(quality.overall_quality, 870_000);
    assert!(potential.lossy_suitable);
    assert_eq!(potential.estimated_savings_percent, 60_000_000);
    assert_eq!(potential.recommended_quality, 80);
    assert_eq!(potential.risk_level, RiskLevel::Low);
    metadata.file_size_bytes = 2_500_000;
    let (_, _, potential) = comprehensive_analysis(&metadata).unwrap();
    assert_eq!(potential.risk_level, RiskLevel::High);
    metadata.file_size_bytes = 100_000;
    metadata.image_type = ImageType::Unknown;
    metadata.format = "webp".to_string();
    let (_, colors, potential) = comprehensive_analysis(&metadata).unwrap();
    assert_eq!(colors.unique_color_estimate, 2048);
    assert_eq!(potential.estimated_savings_percent, 5_000_000);
    assert_eq!(potential.recommended_quality, 80);
    assert!(potential.lossy_suitable);
}

#[test]
fn aspect_preserving_cases() {
    let tall = Dimensions::new(1080, 1920).unwrap();
    let target = Dimensions::new(800, 800).unwrap();
    assert_eq!(
        calculate_aspect_preserving_dimensions(&tall, &target),
        Dimensions { width: 450, height: 800 }
    );
    let same = Dimensions::new(400, 400).unwrap();
    assert_eq!(calculate_aspect_preserving_dimensions(&same, &target), target);
    let thin = Dimensions::new(10_000, 1).unwrap();
    assert_eq!(
        calculate_aspect_preserving_dimensions(&thin, &target),
        Dimensions { width: 800, height: 1 }
    );
}

#[test]
fn prepare_for_web_with_a_readable_header() {
    let data = png_header(1600, 1200, 10_000);
    let max_dims = Dimensions::new(800, 600).unwrap();
    let result = prepare_for_web(&data, "png", Some(max_dims), Some(80)).unwrap();
    assert!(result.processed_size > 0);
    assert_eq!(result.operations_applied[0], "Resize to 800x600");
    assert_eq!(result.original_size, data.len());

    let none = prepare_for_web(&data, "png", None, None).unwrap();
    assert_eq!(none.original_size, data.len());
    assert!(prepare_for_web(&vec![0u8; 23], "png", Some(max_dims), Some(80)).is_err());
    assert!(prepare_for_web(&data, "gif", None, None).is_err());
}

#[test]
fn web_params_follow_the_analysis() {
    let (metadata, quality, colors) = analyze_image(&png_header(4000, 1000, 0), "png").unwrap();
    let potential = analyze_compression_potential(&metadata, &quality, &colors);
    let params = choose_web_params(&metadata, &potential, Some(Dimensions::new(800, 600).unwrap()), None);
    assert_eq!(params.target_dimensions, Some(Dimensions { width: 800, height: 200 }));
    assert_eq!(params.quality, potential.recommended_quality);
    assert_eq!(params.lossless, potential.risk_level == RiskLevel::High);
    let fits = choose_web_params(&metadata, &potential, Some(Dimensions::new(4000, 1000).unwrap()), Some(0));
    assert_eq!(fits.target_dimensions, None);
    assert_eq!(fits.quality, 1);
}

#[test]
fn smart_resize_with_a_readable_header() {
    let data = png_header(100, 100, 30_000);
    let target = Dimensions::new(200, 150).unwrap();
    let (resized, dims) = smart_resize(&data, "png", target, true).unwrap();
    assert_eq!(dims, Dimensions { width: 150, height: 150 });
    assert_eq!(resized.len(), 150 * 150 * 3);
    let (resized, dims) = smart_resize(&data, "png", target, false).unwrap();
    assert_eq!(dims, target);
    assert_eq!(resized.len(), 200 * 150 * 3);
    assert!(smart_resize(&vec![0u8; 23], "png", target, true).is_err());
    assert!(smart_resize(&[], "jpg", target, true).is_err());
}

#[test]
fn batch_processing_keeps_order_and_isolates_failures() {
    let images = vec![
        (png_header(10, 10, 100), "png".to_string()),
        (vec![0u8; 10], "png".to_string()),
        (vec![1u8; 2000], "jpg".to_string()),
        (vec![2u8; 1500], "webp".to_string()),
    ];
    let results = batch_process_images(&images, |data: &Vec<u8>, format: &String| {
        prepare_for_web(data, format, None, Some(80))
    });
    assert_eq!(results.len(), 4);
    assert!(results[0].is_ok());
    assert!(results[1].is_err());
    assert!(results[2].is_ok());
    assert!(results[3].is_ok());
    assert_eq!(results[2].as_ref().unwrap().original_size, 2000);
}

#[test]
fn test_prepare_for_web() {
    let fake_data = vec![0u8; 10000];
    let max_dims = Dimensions::new(800, 600).unwrap();

    let result = prepare_for_web(&fake_data, "png", Some(max_dims), Some(80));
    assert!(result.is_ok());

    let processed = result.unwrap();
    assert!(processed.processed_size > 0);
    assert!(!processed.operations_applied.is_empty());
}

#[test]
fn test_smart_resize() {
    let fake_data = vec![0u8; 30000];
    let target = Dimensions::new(200, 150).unwrap();

    let result = smart_resize(&fake_data, "png", target.clone(), true);
    assert!(result.is_ok());

    let (resized_data, final_dims) = result.unwrap();
    assert!(!resized_data.is_empty());
    assert!(final_dims.width <= target.width);
    assert!(final_dims.height <= target.height);
}

#[test]
fn test_batch_processing() {
    let images = vec![
        (vec![0u8; 1000], "png".to_string()),
        (vec![1u8; 2000], "jpg".to_string()),
        (vec![2u8; 1500], "webp".to_string()),
    ];

    let processor = |data: &Vec<u8>, format: &String| prepare_for_web(data, format, None, Some(80));

    let results = batch_process_images(&images, processor);
    assert_eq!(results.len(), 3);

    for result in results {
        assert!(result.is_ok());
    }
}

#[test]
fn preparing_for_the_web_notes_what_was_done() {
    let data = png_header(1600, 1200, 10_000);
    let frame = Dimensions::new(800, 600).unwrap();
    let resized = prepare_for_web(&data, "png", Some(frame), Some(80)).unwrap();
    assert_eq!(resized.operations_applied.first().unwrap(), "Resize to 800x600");
    assert_eq!(resized.operations_applied.last().unwrap(), "Remove metadata");
    assert_eq!(resized.processed_size, resized.data.len());

    let kept = prepare_for_web(&data, "PNG", None, Some(100)).unwrap();
    assert_eq!(kept.operations_applied, vec!["Remove metadata".to_string()]);
    assert_eq!(kept.data, data);
}

#[test]
fn preparing_for_the_web_fails_as_the_reading_does() {
    let data = png_header(1600, 1200, 10_000);
    assert!(matches!(
        prepare_for_web(&data, "gif", None, None),
        Err(ImageError::UnsupportedFormat(token)) if token == "gif"
    ));
    assert!(matches!(
        prepare_for_web(&vec![0u8; 23], "png", None, Some(80)),
        Err(ImageError::InvalidFormat(_))
    ));
    assert!(matches!(
        prepare_for_web(&png_header(0, 1200, 100), "png", None, Some(80)),
        Err(ImageError::InvalidDimensions(_))
    ));
    assert!(matches!(
        smart_resize(&vec![0u8; 23], "png", Dimensions::new(8, 8).unwrap(), true),
        Err(ImageError::InvalidFormat(_))
    ));
    assert!(matches!(
        get_compression_recommendations(&data, "tiff"),
        Err(ImageError::UnsupportedFormat(token)) if token == "tiff"
    ));
    assert!(matches!(analyze_image(&vec![1u8; 5], "png"), Err(ImageError::InvalidFormat(_))));
}

#[test]
fn a_failed_resize_says_why() {
    let metadata =
        ImageMetadata::new("png".to_string(), Dimensions::new(4, 4).unwrap(), ColorSpace::RGB, 48);
    let none = Dimensions { width: 0, height: 3 };
    assert!(matches!(
        resize_image(&[1, 2, 3], &metadata, &none),
        Err(ImageError::InvalidDimensions(_))
    ));
    let target = Dimensions::new(2, 2).unwrap();
    assert!(matches!(
        resize_image(&[], &metadata, &target),
        Err(ImageError::ProcessingError(_))
    ));
    assert_eq!(resize_image(&[1, 2, 3], &metadata, &target).unwrap(), vec![1, 2, 3, 1, 2, 3, 1, 2, 3, 1, 2, 3]);
    let params = ProcessingParams::new(100).with_resize(none);
    assert!(matches!(
        optimize_for_web(&[1, 2, 3], &metadata, &params),
        Err(ImageError::InvalidDimensions(_))
    ));
    let empty = ImageMetadata::new(
        "png".to_string(),
        Dimensions::new(10, 10).unwrap(),
        ColorSpace::RGB,
        0,
    );
    assert!(matches!(auto_crop(&[], &empty), Err(ImageError::ProcessingError(_))));
}
