//! Whole operations on a picture, from its bytes to a result.

use crate::imaging::analysis::{
    analyze_colors, analyze_compression_potential, assess_image_quality, assessment,
    color_estimate, is_color_analysis_of, potential, variance_of, ColorAnalysis,
    CompressionPotential, QualityAssessment, RiskLevel,
};
use crate::imaging::error::ImageError;
use crate::imaging::metadata::{
    classified, classify_image_type, extract_metadata, is_metadata_error, is_metadata_of,
    metadata_readable, Dimensions, ImageMetadata,
};
use crate::imaging::processing::{
    is_resize_error, is_web_error, optimize_for_web, resize_image, resized, web_operations,
    web_optimized, ProcessingParams, ProcessingResult,
};
use crate::text::texts;
use vstd::prelude::*;
use vstd::string::*;

verus! {

/// Metadata with the type of picture that the metadata itself suggests.
pub open spec fn with_classified_type(metadata: ImageMetadata) -> ImageMetadata {
    ImageMetadata { image_type: classified(metadata), ..metadata }
}

/// Whether `metadata` is what is read from data of a format, with the type
/// of picture classified.
pub open spec fn is_classified_metadata_of(
    metadata: ImageMetadata,
    data: Seq<u8>,
    format: Seq<char>,
) -> bool {
    exists|read: ImageMetadata|
        #![auto]
        is_metadata_of(read, data, format) && metadata == with_classified_type(read)
}

/// Reads the metadata of a picture and classifies it. Fails exactly where
/// the metadata cannot be read.
pub fn read_classified(data: &[u8], format: &str) -> (r: Result<ImageMetadata, ImageError>)
    ensures
        r is Ok == metadata_readable(data@, format@),
        r matches Ok(m) ==> is_classified_metadata_of(m, data@, format@),
        r matches Err(e) ==> is_metadata_error(e, data@, format@),
{
    let mut metadata = match extract_metadata(data, format) {
        Ok(metadata) => metadata,
        Err(e) => {
            return Err(e);
        },
    };
    let ghost read = metadata;
    metadata.image_type = classify_image_type(&metadata);
    assert(is_metadata_of(read, data@, format@) && metadata == with_classified_type(read));
    Ok(metadata)
}

/// Loads and analyzes a picture from its bytes: metadata with the type
/// classified, and the assessments of quality and colors that follow from
/// it. Fails exactly where the metadata cannot be read.
pub fn analyze_image(data: &[u8], format: &str) -> (r: Result<
    (ImageMetadata, QualityAssessment, ColorAnalysis),
    ImageError,
>)
    ensures
        r is Ok == metadata_readable(data@, format@),
        r matches Ok(all) ==> is_classified_metadata_of(all.0, data@, format@) && all.1
            == assessment(all.0) && is_color_analysis_of(all.2, all.0),
        r matches Err(e) ==> is_metadata_error(e, data@, format@),
{
    let metadata = match read_classified(data, format) {
        Ok(metadata) => metadata,
        Err(e) => {
            return Err(e);
        },
    };
    let quality = match assess_image_quality(&metadata) {
        Ok(quality) => quality,
        Err(e) => {
            return Err(e);
        },
    };
    let colors = match analyze_colors(&metadata) {
        Ok(colors) => colors,
        Err(e) => {
            return Err(e);
        },
    };
    Ok((metadata, quality, colors))
}

/// The compression potential that the metadata of a picture suggests.
pub open spec fn potential_of(metadata: ImageMetadata) -> CompressionPotential {
    potential(
        metadata,
        assessment(metadata),
        color_estimate(metadata) as u32,
        variance_of(metadata.image_type),
    )
}

/// Gets compression recommendations for a picture. Fails exactly where the
/// metadata cannot be read.
pub fn get_compression_recommendations(data: &[u8], format: &str) -> (r: Result<
    CompressionPotential,
    ImageError,
>)
    ensures
        r is Ok == metadata_readable(data@, format@),
        r matches Ok(p) ==> (exists|m: ImageMetadata|
            #![auto]
            is_classified_metadata_of(m, data@, format@) && p == potential_of(m)),
        r matches Ok(p) ==> 5_000_000 <= p.estimated_savings_percent <= 90_000_000 && 1
            <= p.recommended_quality <= 100,
        r matches Err(e) ==> is_metadata_error(e, data@, format@),
{
    match analyze_image(data, format) {
        Ok((metadata, quality, colors)) => {
            let p = analyze_compression_potential(&metadata, &quality, &colors);
            assert(is_classified_metadata_of(metadata, data@, format@) && p == potential_of(
                metadata,
            ));
            Ok(p)
        },
        Err(e) => Err(e),
    }
}

/// A number of `u32`, or the greatest one where the number is larger.
pub open spec fn saturated_u32(value: int) -> u32 {
    if value > u32::MAX {
        u32::MAX
    } else {
        value as u32
    }
}

/// A side of a picture that was scaled, kept to at least one pixel.
pub open spec fn scaled_side(side: u32, numerator: u32, denominator: u32) -> u32 {
    if side * numerator / (denominator as int) < 1 {
        1
    } else {
        saturated_u32(side * numerator / (denominator as int))
    }
}

fn scale_side(side: u32, numerator: u32, denominator: u32) -> (r: u32)
    requires
        denominator > 0,
    ensures
        r == scaled_side(side, numerator, denominator),
        r >= 1,
{
    assert(side * numerator <= 0xffff_ffff * 0xffff_ffff) by (nonlinear_arith)
        requires
            0 <= side <= 0xffff_ffff,
            0 <= numerator <= 0xffff_ffff,
    ;
    let scaled: u64 = side as u64 * numerator as u64 / denominator as u64;
    if scaled < 1 {
        1
    } else if scaled > u32::MAX as u64 {
        u32::MAX
    } else {
        scaled as u32
    }
}

/// The dimensions that fit a picture into a frame without changing its
/// shape: the side along which the picture is relatively longer takes the
/// frame's side, the other is scaled with it, rounded down.
pub open spec fn aspect_preserving(current: Dimensions, target: Dimensions) -> Dimensions {
    if current.width * target.height > target.width * current.height {
        Dimensions {
            width: target.width,
            height: scaled_side(target.width, current.height, current.width),
        }
    } else {
        Dimensions {
            width: scaled_side(target.height, current.width, current.height),
            height: target.height,
        }
    }
}

/// Calculates dimensions that preserve the aspect ratio.
pub fn calculate_aspect_preserving_dimensions(current: &Dimensions, target: &Dimensions) -> (r:
    Dimensions)
    requires
        current.width > 0,
        current.height > 0,
    ensures
        r == aspect_preserving(*current, *target),
{
    assert(current.width * target.height <= 0xffff_ffff * 0xffff_ffff) by (nonlinear_arith)
        requires
            0 <= current.width <= 0xffff_ffff,
            0 <= target.height <= 0xffff_ffff,
    ;
    assert(target.width * current.height <= 0xffff_ffff * 0xffff_ffff) by (nonlinear_arith)
        requires
            0 <= target.width <= 0xffff_ffff,
            0 <= current.height <= 0xffff_ffff,
    ;
    if current.width as u64 * target.height as u64 > target.width as u64 * current.height as u64 {
        Dimensions {
            width: target.width,
            height: scale_side(target.width, current.height, current.width),
        }
    } else {
        Dimensions {
            width: scale_side(target.height, current.width, current.height),
            height: target.height,
        }
    }
}

/// The dimensions to which a picture is brought for the web: its own where
/// it fits the frame, else the largest of its shape that fit.
pub open spec fn web_dimensions(current: Dimensions, frame: Dimensions) -> Option<Dimensions> {
    if current.width > frame.width || current.height > frame.height {
        if frame.width * current.height <= frame.height * current.width {
            Some(
                Dimensions {
                    width: scaled_side(current.width, frame.width, current.width),
                    height: scaled_side(current.height, frame.width, current.width),
                },
            )
        } else {
            Some(
                Dimensions {
                    width: scaled_side(current.width, frame.height, current.height),
                    height: scaled_side(current.height, frame.height, current.height),
                },
            )
        }
    } else {
        None
    }
}

/// The parameters with which a picture is prepared for the web: the target
/// quality, or the recommended one where none is given; a resize where the
/// picture does not fit the frame; lossless processing where compression is
/// risky.
pub open spec fn web_params(
    metadata: ImageMetadata,
    potential: CompressionPotential,
    max_dimensions: Option<Dimensions>,
    target_quality: Option<u8>,
) -> ProcessingParams {
    let quality = match target_quality {
        Some(q) => q,
        None => potential.recommended_quality,
    };
    let resize = match max_dimensions {
        Some(frame) => web_dimensions(metadata.dimensions, frame),
        None => None,
    };
    ProcessingParams {
        target_dimensions: resize,
        quality: crate::compression::settings::clamp_quality(quality),
        preserve_metadata: false,
        optimize_alpha: true,
        progressive: false,
        lossless: potential.risk_level == RiskLevel::High,
    }
}

/// Chooses the parameters with which a picture is prepared for the web.
pub fn choose_web_params(
    metadata: &ImageMetadata,
    potential: &CompressionPotential,
    max_dimensions: Option<Dimensions>,
    target_quality: Option<u8>,
) -> (params: ProcessingParams)
    requires
        metadata.dimensions.width > 0,
        metadata.dimensions.height > 0,
    ensures
        params == web_params(*metadata, *potential, max_dimensions, target_quality),
{
    let quality = match target_quality {
        Some(q) => q,
        None => potential.recommended_quality,
    };
    let mut params = ProcessingParams::new(quality);
    match max_dimensions {
        Some(frame) => {
            let current = metadata.dimensions;
            if current.width > frame.width || current.height > frame.height {
                assert(frame.width * current.height <= 0xffff_ffff * 0xffff_ffff)
                    by (nonlinear_arith)
                    requires
                        0 <= frame.width <= 0xffff_ffff,
                        0 <= current.height <= 0xffff_ffff,
                ;
                assert(frame.height * current.width <= 0xffff_ffff * 0xffff_ffff)
                    by (nonlinear_arith)
                    requires
                        0 <= frame.height <= 0xffff_ffff,
                        0 <= current.width <= 0xffff_ffff,
                ;
                let target = if frame.width as u64 * current.height as u64 <= frame.height as u64
                    * current.width as u64 {
                    Dimensions {
                        width: scale_side(current.width, frame.width, current.width),
                        height: scale_side(current.height, frame.width, current.width),
                    }
                } else {
                    Dimensions {
                        width: scale_side(current.width, frame.height, current.height),
                        height: scale_side(current.height, frame.height, current.height),
                    }
                };
                params = params.with_resize(target);
            }
        },
        None => {},
    }
    if potential.risk_level == RiskLevel::High {
        params = params.with_lossless();
    }
    params
}

/// The samples that preparing a picture for the web gives, for metadata
/// read and classified, if the preparation succeeds.
pub open spec fn prepared(
    data: Seq<u8>,
    metadata: ImageMetadata,
    max_dimensions: Option<Dimensions>,
    target_quality: Option<u8>,
) -> Option<Seq<u8>> {
    web_optimized(
        data,
        metadata,
        web_params(metadata, potential_of(metadata), max_dimensions, target_quality),
    )
}

/// Prepares a picture for web delivery: analyzes it, chooses parameters as
/// `web_params` says, and optimizes it with them, noting each operation;
/// the removal of metadata is always among them. Fails where the metadata
/// cannot be read, with the error of the reading, or the optimization
/// fails.
pub fn prepare_for_web(
    data: &[u8],
    format: &str,
    max_dimensions: Option<Dimensions>,
    target_quality: Option<u8>,
) -> (r: Result<ProcessingResult, ImageError>)
    ensures
        !metadata_readable(data@, format@) ==> (r matches Err(e) && is_metadata_error(
            e,
            data@,
            format@,
        )),
        r matches Ok(result) ==> result.original_size == data@.len() && result.processed_size
            == result.data@.len() && result.operations_applied@.len() > 0 && (exists|
            m: ImageMetadata,
        |
            #![auto]
            is_classified_metadata_of(m, data@, format@) && prepared(
                data@,
                m,
                max_dimensions,
                target_quality,
            ) == Some(result.data@) && texts(result.operations_applied@) == web_operations(
                data@,
                m,
                web_params(m, potential_of(m), max_dimensions, target_quality),
            )),
        r matches Err(e) ==> metadata_readable(data@, format@) ==> (exists|m: ImageMetadata|
            #![auto]
            is_classified_metadata_of(m, data@, format@) && prepared(
                data@,
                m,
                max_dimensions,
                target_quality,
            ) is None && is_web_error(
                e,
                data@,
                m,
                web_params(m, potential_of(m), max_dimensions, target_quality),
            )),
{
    let (metadata, quality, colors) = match analyze_image(data, format) {
        Ok(all) => all,
        Err(e) => {
            return Err(e);
        },
    };
    proof {
        let read = choose|read: ImageMetadata|
            #![auto]
            is_metadata_of(read, data@, format@) && metadata == with_classified_type(read);
        assert(metadata.dimensions == read.dimensions);
    }
    let potential = analyze_compression_potential(&metadata, &quality, &colors);
    let params = choose_web_params(&metadata, &potential, max_dimensions, target_quality);
    let r = optimize_for_web(data, &metadata, &params);
    proof {
        if r is Ok {
            let operations = web_operations(data@, metadata, params);
            assert(operations.len() > 0);
            assert(texts(r->Ok_0.operations_applied@).len() == r->Ok_0.operations_applied@.len());
            assert(is_classified_metadata_of(metadata, data@, format@) && prepared(
                data@,
                metadata,
                max_dimensions,
                target_quality,
            ) == Some(r->Ok_0.data@) && texts(r->Ok_0.operations_applied@) == web_operations(
                data@,
                metadata,
                web_params(metadata, potential_of(metadata), max_dimensions, target_quality),
            ));
        } else {
            assert(is_classified_metadata_of(metadata, data@, format@) && prepared(
                data@,
                metadata,
                max_dimensions,
                target_quality,
            ) is None && is_web_error(
                r->Err_0,
                data@,
                metadata,
                web_params(metadata, potential_of(metadata), max_dimensions, target_quality),
            ));
        }
    }
    r
}

/// Resizes a picture to target dimensions, or, where its shape is to be
/// kept, to the dimensions of that shape that fit the target.
pub fn smart_resize(
    data: &[u8],
    format: &str,
    target_dimensions: Dimensions,
    maintain_aspect_ratio: bool,
) -> (r: Result<(Vec<u8>, Dimensions), ImageError>)
    ensures
        !metadata_readable(data@, format@) ==> (r matches Err(e) && is_metadata_error(
            e,
            data@,
            format@,
        )),
        r matches Ok(pair) ==> (exists|m: ImageMetadata|
            #![auto]
            is_metadata_of(m, data@, format@) && pair.1 == (if maintain_aspect_ratio {
                aspect_preserving(m.dimensions, target_dimensions)
            } else {
                target_dimensions
            }) && resized(data@, m, pair.1) == Some(pair.0@)),
        r matches Err(e) ==> metadata_readable(data@, format@) ==> (exists|m: ImageMetadata|
            #![auto]
            is_metadata_of(m, data@, format@) && resized(
                data@,
                m,
                if maintain_aspect_ratio {
                    aspect_preserving(m.dimensions, target_dimensions)
                } else {
                    target_dimensions
                },
            ) is None && is_resize_error(
                e,
                m,
                if maintain_aspect_ratio {
                    aspect_preserving(m.dimensions, target_dimensions)
                } else {
                    target_dimensions
                },
            )),
{
    let metadata = match extract_metadata(data, format) {
        Ok(metadata) => metadata,
        Err(e) => {
            return Err(e);
        },
    };
    let final_dimensions = if maintain_aspect_ratio {
        calculate_aspect_preserving_dimensions(&metadata.dimensions, &target_dimensions)
    } else {
        target_dimensions
    };
    match resize_image(data, &metadata, &final_dimensions) {
        Ok(samples) => {
            assert(is_metadata_of(metadata, data@, format@) && resized(
                data@,
                metadata,
                final_dimensions,
            ) == Some(samples@));
            Ok((samples, final_dimensions))
        },
        Err(e) => {
            assert(is_metadata_of(metadata, data@, format@) && resized(
                data@,
                metadata,
                final_dimensions,
            ) is None && is_resize_error(e, metadata, final_dimensions));
            Err(e)
        },
    }
}

/// Processes several pictures, one after the other, each with the given
/// processor; the results come in the order of the pictures, and a failure
/// of one picture does not keep the others from being processed.
pub fn batch_process_images<F>(images: &Vec<(Vec<u8>, String)>, processor: F) -> (results: Vec<
    Result<ProcessingResult, ImageError>,
>) where F: Fn(&Vec<u8>, &String) -> Result<ProcessingResult, ImageError>
    requires
        forall|i: int|
            0 <= i < images@.len() ==> call_requires(
                processor,
                (&#[trigger] images@[i].0, &images@[i].1),
            ),
    ensures
        results@.len() == images@.len(),
        forall|i: int|
            0 <= i < images@.len() ==> call_ensures(
                processor,
                (&#[trigger] images@[i].0, &images@[i].1),
                results@[i],
            ),
{
    let mut results: Vec<Result<ProcessingResult, ImageError>> = Vec::new();
    let mut k: usize = 0;
    while k < images.len()
        invariant
            k <= images@.len(),
            results@.len() == k,
            forall|i: int|
                0 <= i < images@.len() ==> call_requires(
                    processor,
                    (&#[trigger] images@[i].0, &images@[i].1),
                ),
            forall|i: int|
                0 <= i < k ==> call_ensures(
                    processor,
                    (&#[trigger] images@[i].0, &images@[i].1),
                    results@[i],
                ),
        decreases images@.len() - k,
    {
        let picture = &images[k];
        let result = processor(&picture.0, &picture.1);
        results.push(result);
        k += 1;
    }
    results
}

} // verus!
