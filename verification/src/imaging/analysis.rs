//! What the metadata of a picture suggests about its quality, its colors
//! and how well it will compress. Scores are in millionths.

use crate::imaging::error::ImageError;
use crate::imaging::metadata::{ColorSpace, ImageMetadata, ImageType};
use crate::text::{lowercase, str_eq, to_lowercase};
use vstd::prelude::*;

verus! {

/// Image quality assessment result; every score lies between zero and one
/// million.
#[derive(Debug, Clone, Copy, PartialEq, Eq, Structural)]
pub struct QualityAssessment {
    pub sharpness_score: u32,
    pub noise_level: u32,
    pub contrast_score: u32,
    pub color_richness: u32,
    /// Weighted mean of the other scores.
    pub overall_quality: u32,
}

/// Color distribution analysis.
#[derive(Debug, Clone)]
pub struct ColorAnalysis {
    /// RGB values of the most frequent colors.
    pub dominant_colors: Vec<(u8, u8, u8)>,
    pub unique_color_estimate: u32,
    pub has_transparency_pixels: bool,
    pub average_brightness: u32,
    pub color_variance: u32,
}

/// How risky it is to compress a picture with loss.
#[derive(Debug, Clone, Copy, PartialEq, Eq, Structural)]
pub enum RiskLevel {
    /// Safe to compress aggressively.
    Low,
    /// Moderate compression recommended.
    Medium,
    /// Conservative compression only.
    High,
}

/// Compression potential analysis.
#[derive(Debug, Clone, Copy, PartialEq, Eq, Structural)]
pub struct CompressionPotential {
    pub lossy_suitable: bool,
    /// Expected saving in millionths of a percent.
    pub estimated_savings_percent: u32,
    pub recommended_quality: u8,
    pub risk_level: RiskLevel,
}

/// Whether a lowercase format token names JPEG.
pub open spec fn is_jpeg_token(token: Seq<char>) -> bool {
    token == "jpg"@ || token == "jpeg"@
}

/// Whether the file takes more than `numerator / denominator` of the size
/// of its raw samples.
pub open spec fn ratio_exceeds(metadata: ImageMetadata, numerator: int, denominator: int) -> bool {
    metadata.spec_uncompressed_size() > 0 && metadata.file_size_bytes * denominator
        > metadata.spec_uncompressed_size() * numerator
}

/// Sharpness that the format and the compression ratio suggest.
pub open spec fn sharpness(metadata: ImageMetadata) -> u32 {
    let token = lowercase(metadata.format@);
    if is_jpeg_token(token) {
        if ratio_exceeds(metadata, 1, 10) {
            300_000
        } else if ratio_exceeds(metadata, 1, 20) {
            600_000
        } else {
            900_000
        }
    } else if token == "png"@ {
        950_000
    } else if token == "webp"@ {
        850_000
    } else {
        500_000
    }
}

/// Contrast that the type of a picture suggests.
pub open spec fn contrast(image_type: ImageType) -> u32 {
    match image_type {
        ImageType::Photo => 700_000,
        ImageType::Logo => 900_000,
        ImageType::Graphic => 800_000,
        ImageType::Screenshot => 600_000,
        ImageType::Unknown => 500_000,
    }
}

/// Color richness that the color space suggests.
pub open spec fn richness(color_space: ColorSpace) -> u32 {
    match color_space {
        ColorSpace::RGB => 800_000,
        ColorSpace::RGBA => 800_000,
        ColorSpace::Grayscale => 300_000,
        ColorSpace::GrayscaleAlpha => 300_000,
        ColorSpace::CMYK => 900_000,
        ColorSpace::YUV => 700_000,
    }
}

/// The assessment of a picture: noise is what JPEG sharpness leaves, a
/// tenth for other formats; the overall quality weighs sharpness with 0.4,
/// freedom from noise with 0.3, contrast with 0.2 and richness with 0.1.
pub open spec fn assessment(metadata: ImageMetadata) -> QualityAssessment {
    let sharpness_score = sharpness(metadata);
    let noise_level = if is_jpeg_token(lowercase(metadata.format@)) {
        (1_000_000 - sharpness_score) as u32
    } else {
        100_000u32
    };
    let contrast_score = contrast(metadata.image_type);
    let color_richness = richness(metadata.color_space);
    QualityAssessment {
        sharpness_score,
        noise_level,
        contrast_score,
        color_richness,
        overall_quality: ((sharpness_score * 4 + (1_000_000 - noise_level) * 3 + contrast_score
            * 2 + color_richness) / 10) as u32,
    }
}

fn exceeds(metadata: &ImageMetadata, numerator: u8, denominator: u8) -> (b: bool)
    ensures
        b == ratio_exceeds(*metadata, numerator as int, denominator as int),
{
    let pixels = metadata.dimensions.pixel_count();
    let each = metadata.color_space.bytes_per_pixel();
    assert(pixels * each <= 0xffff_ffff_ffff_ffff * 4) by (nonlinear_arith)
        requires
            0 <= pixels <= 0xffff_ffff_ffff_ffff,
            0 <= each <= 4,
    ;
    let raw: u128 = pixels as u128 * each as u128;
    assert(metadata.file_size_bytes * denominator <= 0xffff_ffff_ffff_ffff * 255)
        by (nonlinear_arith)
        requires
            0 <= metadata.file_size_bytes <= 0xffff_ffff_ffff_ffff,
            0 <= denominator <= 255,
    ;
    assert(raw * numerator <= 0xffff_ffff_ffff_ffff * 4 * 255) by (nonlinear_arith)
        requires
            0 <= raw <= 0xffff_ffff_ffff_ffff * 4,
            0 <= numerator <= 255,
    ;
    raw > 0 && metadata.file_size_bytes as u128 * denominator as u128 > raw * numerator as u128
}

/// Assesses the quality of a picture from its metadata. Never fails.
pub fn assess_image_quality(metadata: &ImageMetadata) -> (r: Result<QualityAssessment, ImageError>)
    ensures
        r matches Ok(q) && q == assessment(*metadata),
{
    let lower = to_lowercase(metadata.format.as_str());
    let token = lower.as_str();
    let jpeg = str_eq(token, "jpg") || str_eq(token, "jpeg");
    let sharpness_score: u32 = if jpeg {
        if exceeds(metadata, 1, 10) {
            300_000
        } else if exceeds(metadata, 1, 20) {
            600_000
        } else {
            900_000
        }
    } else if str_eq(token, "png") {
        950_000
    } else if str_eq(token, "webp") {
        850_000
    } else {
        500_000
    };
    let noise_level: u32 = if jpeg {
        1_000_000 - sharpness_score
    } else {
        100_000
    };
    let contrast_score: u32 = match metadata.image_type {
        ImageType::Photo => 700_000,
        ImageType::Logo => 900_000,
        ImageType::Graphic => 800_000,
        ImageType::Screenshot => 600_000,
        ImageType::Unknown => 500_000,
    };
    let color_richness: u32 = match metadata.color_space {
        ColorSpace::RGB => 800_000,
        ColorSpace::RGBA => 800_000,
        ColorSpace::Grayscale => 300_000,
        ColorSpace::GrayscaleAlpha => 300_000,
        ColorSpace::CMYK => 900_000,
        ColorSpace::YUV => 700_000,
    };
    let overall_quality: u32 = (sharpness_score * 4 + (1_000_000 - noise_level) * 3
        + contrast_score * 2 + color_richness) / 10;
    Ok(
        QualityAssessment {
            sharpness_score,
            noise_level,
            contrast_score,
            color_richness,
            overall_quality,
        },
    )
}

/// A number kept between two bounds.
pub open spec fn clamped(value: int, low: int, high: int) -> int {
    if value < low {
        low
    } else if value > high {
        high
    } else {
        value
    }
}

/// The number of colors that the type and size of a picture suggest.
pub open spec fn color_estimate(metadata: ImageMetadata) -> int {
    let pixels = metadata.dimensions.spec_pixel_count();
    match metadata.image_type {
        ImageType::Logo => clamped(pixels / 1000, 2, 64),
        ImageType::Screenshot => clamped(pixels / 100, 16, 1024),
        ImageType::Photo => clamped(pixels / 10, 1000, 65536),
        ImageType::Graphic => clamped(pixels / 50, 32, 4096),
        ImageType::Unknown => clamped(pixels / 100, 16, 2048),
    }
}

/// The colors taken to dominate a picture of a type.
pub open spec fn dominant_colors_of(image_type: ImageType) -> Seq<(u8, u8, u8)> {
    match image_type {
        ImageType::Logo => seq![(255u8, 255u8, 255u8), (0u8, 0u8, 0u8)],
        ImageType::Photo => seq![
            (128u8, 128u8, 128u8),
            (64u8, 64u8, 64u8),
            (192u8, 192u8, 192u8),
        ],
        _ => seq![(128u8, 128u8, 128u8)],
    }
}

/// The brightness taken for a picture of a type.
pub open spec fn brightness_of(image_type: ImageType) -> u32 {
    match image_type {
        ImageType::Logo => 800_000,
        ImageType::Screenshot => 900_000,
        ImageType::Photo => 500_000,
        ImageType::Graphic => 600_000,
        ImageType::Unknown => 500_000,
    }
}

/// The color variance taken for a picture of a type.
pub open spec fn variance_of(image_type: ImageType) -> u32 {
    match image_type {
        ImageType::Logo => 300_000,
        ImageType::Photo => 800_000,
        ImageType::Screenshot => 400_000,
        ImageType::Graphic => 600_000,
        ImageType::Unknown => 500_000,
    }
}

fn clamp_count(value: u64, low: u64, high: u64) -> (r: u32)
    requires
        low <= high <= u32::MAX,
    ensures
        r == clamped(value as int, low as int, high as int),
{
    if value < low {
        low as u32
    } else if value > high {
        high as u32
    } else {
        value as u32
    }
}

/// Whether `colors` is the color analysis that goes with metadata: every
/// figure is the one that the type of picture and its size suggest.
pub open spec fn is_color_analysis_of(colors: ColorAnalysis, metadata: ImageMetadata) -> bool {
    &&& colors.dominant_colors@ == dominant_colors_of(metadata.image_type)
    &&& colors.unique_color_estimate == color_estimate(metadata)
    &&& colors.has_transparency_pixels == metadata.has_transparency
    &&& colors.average_brightness == brightness_of(metadata.image_type)
    &&& colors.color_variance == variance_of(metadata.image_type)
}

/// Analyzes the color distribution of a picture from its metadata. Never
/// fails.
pub fn analyze_colors(metadata: &ImageMetadata) -> (r: Result<ColorAnalysis, ImageError>)
    ensures
        r matches Ok(colors) && is_color_analysis_of(colors, *metadata),
{
    let pixels = metadata.dimensions.pixel_count();
    let unique_color_estimate = match metadata.image_type {
        ImageType::Logo => clamp_count(pixels / 1000, 2, 64),
        ImageType::Screenshot => clamp_count(pixels / 100, 16, 1024),
        ImageType::Photo => clamp_count(pixels / 10, 1000, 65536),
        ImageType::Graphic => clamp_count(pixels / 50, 32, 4096),
        ImageType::Unknown => clamp_count(pixels / 100, 16, 2048),
    };
    let mut dominant_colors: Vec<(u8, u8, u8)> = Vec::new();
    match metadata.image_type {
        ImageType::Logo => {
            dominant_colors.push((255, 255, 255));
            dominant_colors.push((0, 0, 0));
        },
        ImageType::Photo => {
            dominant_colors.push((128, 128, 128));
            dominant_colors.push((64, 64, 64));
            dominant_colors.push((192, 192, 192));
        },
        _ => {
            dominant_colors.push((128, 128, 128));
        },
    }
    assert(dominant_colors@ =~= dominant_colors_of(metadata.image_type));
    let average_brightness: u32 = match metadata.image_type {
        ImageType::Logo => 800_000,
        ImageType::Screenshot => 900_000,
        ImageType::Photo => 500_000,
        ImageType::Graphic => 600_000,
        ImageType::Unknown => 500_000,
    };
    let color_variance: u32 = match metadata.image_type {
        ImageType::Logo => 300_000,
        ImageType::Photo => 800_000,
        ImageType::Screenshot => 400_000,
        ImageType::Graphic => 600_000,
        ImageType::Unknown => 500_000,
    };
    Ok(
        ColorAnalysis {
            dominant_colors,
            unique_color_estimate,
            has_transparency_pixels: metadata.has_transparency,
            average_brightness,
            color_variance,
        },
    )
}

/// Whether lossy compression suits a picture, given its analysis.
pub open spec fn lossy_suits(
    metadata: ImageMetadata,
    quality: QualityAssessment,
    unique_colors: u32,
    color_variance: u32,
) -> bool {
    match metadata.image_type {
        ImageType::Photo => true,
        ImageType::Logo => false,
        ImageType::Screenshot => false,
        ImageType::Graphic => unique_colors > 256 && color_variance > 500_000,
        ImageType::Unknown => unique_colors > 1000 && quality.overall_quality > 700_000,
    }
}

/// The saving to expect, in millionths of a percent: a base by format,
/// weighed by the type of picture, kept between 5 and 90 percent.
pub open spec fn expected_savings(
    metadata: ImageMetadata,
    quality: QualityAssessment,
    unique_colors: u32,
) -> int {
    let token = lowercase(metadata.format@);
    let base: int = if token == "png"@ {
        if unique_colors < 256 {
            20
        } else {
            60
        }
    } else if is_jpeg_token(token) {
        if quality.overall_quality > 800_000 {
            15
        } else {
            25
        }
    } else if token == "webp"@ {
        5
    } else {
        10
    };
    let tenths: int = match metadata.image_type {
        ImageType::Photo => 10,
        ImageType::Logo => 5,
        ImageType::Screenshot => 7,
        ImageType::Graphic => 8,
        ImageType::Unknown => 6,
    };
    clamped(base * tenths * 100_000, 5_000_000, 90_000_000)
}

/// The quality to recommend for a picture.
pub open spec fn recommended_quality(metadata: ImageMetadata, quality: QualityAssessment) -> u8 {
    match metadata.image_type {
        ImageType::Photo => if quality.overall_quality > 900_000 {
            90
        } else if quality.overall_quality > 700_000 {
            80
        } else {
            75
        },
        ImageType::Logo => 95,
        ImageType::Screenshot => 85,
        ImageType::Graphic => 85,
        ImageType::Unknown => 80,
    }
}

/// The risk of compressing a picture with loss.
pub open spec fn compression_risk(
    metadata: ImageMetadata,
    quality: QualityAssessment,
    unique_colors: u32,
) -> RiskLevel {
    if metadata.image_type == ImageType::Logo || metadata.image_type == ImageType::Screenshot
        || unique_colors < 64 {
        RiskLevel::High
    } else if quality.overall_quality < 500_000 || ratio_exceeds(metadata, 4, 5) {
        RiskLevel::High
    } else if quality.overall_quality > 800_000 && unique_colors > 1000 {
        RiskLevel::Low
    } else {
        RiskLevel::Medium
    }
}

/// The compression potential of a picture, given its analysis.
pub open spec fn potential(
    metadata: ImageMetadata,
    quality: QualityAssessment,
    unique_colors: u32,
    color_variance: u32,
) -> CompressionPotential {
    CompressionPotential {
        lossy_suitable: lossy_suits(metadata, quality, unique_colors, color_variance),
        estimated_savings_percent: expected_savings(metadata, quality, unique_colors) as u32,
        recommended_quality: recommended_quality(metadata, quality),
        risk_level: compression_risk(metadata, quality, unique_colors),
    }
}

/// Analyzes the compression potential of a picture.
pub fn analyze_compression_potential(
    metadata: &ImageMetadata,
    quality_assessment: &QualityAssessment,
    color_analysis: &ColorAnalysis,
) -> (r: CompressionPotential)
    ensures
        r == potential(
            *metadata,
            *quality_assessment,
            color_analysis.unique_color_estimate,
            color_analysis.color_variance,
        ),
        5_000_000 <= r.estimated_savings_percent <= 90_000_000,
        1 <= r.recommended_quality <= 100,
{
    let colors = color_analysis.unique_color_estimate;
    let overall = quality_assessment.overall_quality;
    let lossy_suitable = match metadata.image_type {
        ImageType::Photo => true,
        ImageType::Logo => false,
        ImageType::Screenshot => false,
        ImageType::Graphic => colors > 256 && color_analysis.color_variance > 500_000,
        ImageType::Unknown => colors > 1000 && overall > 700_000,
    };
    let lower = to_lowercase(metadata.format.as_str());
    let token = lower.as_str();
    let base: u32 = if str_eq(token, "png") {
        if colors < 256 {
            20
        } else {
            60
        }
    } else if str_eq(token, "jpg") || str_eq(token, "jpeg") {
        if overall > 800_000 {
            15
        } else {
            25
        }
    } else if str_eq(token, "webp") {
        5
    } else {
        10
    };
    let tenths: u32 = match metadata.image_type {
        ImageType::Photo => 10,
        ImageType::Logo => 5,
        ImageType::Screenshot => 7,
        ImageType::Graphic => 8,
        ImageType::Unknown => 6,
    };
    let weighed: u32 = base * tenths * 100_000;
    let estimated_savings_percent: u32 = if weighed < 5_000_000 {
        5_000_000
    } else if weighed > 90_000_000 {
        90_000_000
    } else {
        weighed
    };
    let recommended_quality: u8 = match metadata.image_type {
        ImageType::Photo => {
            if overall > 900_000 {
                90
            } else if overall > 700_000 {
                80
            } else {
                75
            }
        },
        ImageType::Logo => 95,
        ImageType::Screenshot => 85,
        ImageType::Graphic => 85,
        ImageType::Unknown => 80,
    };
    let risk_level = if metadata.image_type == ImageType::Logo || metadata.image_type
        == ImageType::Screenshot || colors < 64 {
        RiskLevel::High
    } else if overall < 500_000 || exceeds(metadata, 4, 5) {
        RiskLevel::High
    } else if overall > 800_000 && colors > 1000 {
        RiskLevel::Low
    } else {
        RiskLevel::Medium
    };
    CompressionPotential { lossy_suitable, estimated_savings_percent, recommended_quality, risk_level }
}

/// Performs the whole analysis of a picture: quality, colors, and the
/// compression potential that follows from them. Never fails.
pub fn comprehensive_analysis(metadata: &ImageMetadata) -> (r: Result<
    (QualityAssessment, ColorAnalysis, CompressionPotential),
    ImageError,
>)
    ensures
        r matches Ok(all) && all.0 == assessment(*metadata) && is_color_analysis_of(
            all.1,
            *metadata,
        ) && all.2 == potential(
            *metadata,
            assessment(*metadata),
            color_estimate(*metadata) as u32,
            variance_of(metadata.image_type),
        ),
{
    let quality = match assess_image_quality(metadata) {
        Ok(quality) => quality,
        Err(e) => {
            return Err(e);
        },
    };
    let colors = match analyze_colors(metadata) {
        Ok(colors) => colors,
        Err(e) => {
            return Err(e);
        },
    };
    let compression = analyze_compression_potential(metadata, &quality, &colors);
    Ok((quality, colors, compression))
}

} // verus!
