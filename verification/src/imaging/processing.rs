//! Operations on the raw samples of a picture.

use crate::compression::engine::{drop_alpha, without_alpha};
use crate::imaging::error::ImageError;
use crate::imaging::metadata::{ColorSpace, Dimensions, ImageMetadata};
use crate::shared::time::{milliseconds_since, start_timer};
use crate::text::{decimal, decimal_string, join2, lowercase, str_eq, texts, to_lowercase};
use vstd::prelude::*;
use vstd::slice::slice_to_vec;
use vstd::string::*;

verus! {

/// Image processing operation result.
#[derive(Debug, Clone)]
pub struct ProcessingResult {
    pub data: Vec<u8>,
    pub original_size: usize,
    pub processed_size: usize,
    pub operations_applied: Vec<String>,
    pub processing_time_ms: u64,
}

impl ProcessingResult {
    /// The reduction in size in millionths of a percent, rounded down; zero
    /// for an empty original; negative where the data grew.
    pub open spec fn spec_size_reduction_percent(self) -> int {
        if self.original_size == 0 {
            0
        } else {
            (self.original_size - self.processed_size) * 100_000_000 / (self.original_size as int)
        }
    }

    /// Calculates the reduction in size, in millionths of a percent.
    pub fn size_reduction_percent(&self) -> (r: i128)
        ensures
            r == self.spec_size_reduction_percent(),
    {
        crate::fixed::savings_percent(self.original_size as u64, self.processed_size as u64)
    }
}

/// Image processing parameters.
#[derive(Debug, Clone, Copy, PartialEq, Eq, Structural)]
pub struct ProcessingParams {
    pub target_dimensions: Option<Dimensions>,
    pub quality: u8,
    pub preserve_metadata: bool,
    pub optimize_alpha: bool,
    pub progressive: bool,
    pub lossless: bool,
}

impl ProcessingParams {
    /// Parameters for a quality, clamped to 1..=100: no resize, lossy,
    /// alpha optimized, metadata dropped.
    pub fn new(quality: u8) -> (params: ProcessingParams)
        ensures
            params == (ProcessingParams {
                target_dimensions: None,
                quality: crate::compression::settings::clamp_quality(quality),
                preserve_metadata: false,
                optimize_alpha: true,
                progressive: false,
                lossless: false,
            }),
            1 <= params.quality <= 100,
    {
        ProcessingParams {
            target_dimensions: None,
            quality: crate::compression::settings::clamped_quality(quality),
            preserve_metadata: false,
            optimize_alpha: true,
            progressive: false,
            lossless: false,
        }
    }

    /// Returns the parameters with a resize to the given dimensions.
    pub fn with_resize(self, dimensions: Dimensions) -> (params: ProcessingParams)
        ensures
            params == (ProcessingParams { target_dimensions: Some(dimensions), ..self }),
    {
        ProcessingParams { target_dimensions: Some(dimensions), ..self }
    }

    /// Returns the parameters with lossless processing.
    pub fn with_lossless(self) -> (params: ProcessingParams)
        ensures
            params == (ProcessingParams { lossless: true, ..self }),
    {
        ProcessingParams { lossless: true, ..self }
    }

    /// Returns the parameters with metadata kept.
    pub fn with_metadata_preservation(self) -> (params: ProcessingParams)
        ensures
            params == (ProcessingParams { preserve_metadata: true, ..self }),
    {
        ProcessingParams { preserve_metadata: true, ..self }
    }
}

/// Data brought to a length by cutting it, or by repeating it from its
/// start.
pub open spec fn cycled(data: Seq<u8>, length: nat) -> Seq<u8> {
    Seq::new(length, |i: int| data[i % (data.len() as int)])
}

/// The number of bytes that a picture of the target dimensions takes in
/// the color space of the metadata.
pub open spec fn target_size(metadata: ImageMetadata, target: Dimensions) -> int {
    target.spec_pixel_count() * metadata.color_space.spec_bytes_per_pixel()
}

/// What resizing gives: nothing for a target without pixels, for data that
/// cannot be stretched because it is empty, and for a target too large for
/// memory; the data itself where the dimensions do not change; else the
/// data cut or repeated to the size of the target.
pub open spec fn resized(data: Seq<u8>, metadata: ImageMetadata, target: Dimensions) -> Option<
    Seq<u8>,
> {
    if target.spec_pixel_count() == 0 {
        None
    } else if metadata.dimensions == target {
        Some(data)
    } else if target_size(metadata, target) > usize::MAX || data.len() == 0 {
        None
    } else {
        Some(cycled(data, target_size(metadata, target) as nat))
    }
}

/// Whether `e` is the error with which a resize fails: `InvalidDimensions`
/// for a target without pixels, `MemoryError` for a target too large for
/// memory, `ProcessingError` for data that cannot be stretched.
pub open spec fn is_resize_error(e: ImageError, metadata: ImageMetadata, target: Dimensions)
    -> bool {
    if target.spec_pixel_count() == 0 {
        e is InvalidDimensions
    } else if target_size(metadata, target) > usize::MAX {
        e is MemoryError
    } else {
        e is ProcessingError
    }
}

/// Resizes image data.
pub fn resize_image(data: &[u8], current_metadata: &ImageMetadata, target_dimensions: &Dimensions)
    -> (r: Result<Vec<u8>, ImageError>)
    ensures
        match resized(data@, *current_metadata, *target_dimensions) {
            Some(bytes) => r matches Ok(out) && out@ == bytes,
            None => r matches Err(e) && is_resize_error(
                e,
                *current_metadata,
                *target_dimensions,
            ),
        },
        target_dimensions.spec_pixel_count() == 0 ==> (r matches Err(
            ImageError::InvalidDimensions(_),
        )),
{
    if target_dimensions.pixel_count() == 0 {
        return Err(
            ImageError::InvalidDimensions(String::from_str("Target dimensions cannot be zero")),
        );
    }
    if current_metadata.dimensions.width == target_dimensions.width
        && current_metadata.dimensions.height == target_dimensions.height {
        return Ok(slice_to_vec(data));
    }
    let pixels = target_dimensions.pixel_count();
    let each = current_metadata.color_space.bytes_per_pixel();
    assert(pixels * each <= 0xffff_ffff_ffff_ffff * 4) by (nonlinear_arith)
        requires
            0 <= pixels <= 0xffff_ffff_ffff_ffff,
            0 <= each <= 4,
    ;
    let wanted: u128 = pixels as u128 * each as u128;
    if wanted > usize::MAX as u128 {
        return Err(ImageError::MemoryError(String::from_str("Target picture too large")));
    }
    if data.len() == 0 {
        return Err(ImageError::ProcessingError(String::from_str("No data to resize")));
    }
    let length: usize = wanted as usize;
    let mut out: Vec<u8> = Vec::new();
    let mut i: usize = 0;
    let mut source: usize = 0;
    while i < length
        invariant
            i <= length,
            data@.len() > 0,
            source < data@.len(),
            source == (i as int) % (data@.len() as int),
            out@.len() == i,
            forall|j: int| 0 <= j < i ==> out@[j] == data@[j % (data@.len() as int)],
        decreases length - i,
    {
        out.push(data[source]);
        proof {
            let n = data@.len() as int;
            assert(((i + 1) as int) % n == if source + 1 == n {
                0
            } else {
                source + 1
            }) by (nonlinear_arith)
                requires
                    n > 0,
                    0 <= source < n,
                    source == (i as int) % n,
                    i >= 0,
            ;
        }
        i += 1;
        source = if source + 1 == data.len() {
            0
        } else {
            source + 1
        };
    }
    assert(out@ =~= cycled(data@, length as nat));
    Ok(out)
}

/// RGB samples with an opaque alpha sample added to every pixel.
pub open spec fn with_opaque_alpha(rgb: Seq<u8>) -> Seq<u8> {
    Seq::new(
        (rgb.len() / 3 * 4) as nat,
        |i: int|
            if i % 4 == 3 {
                255u8
            } else {
                rgb[i / 4 * 3 + i % 4]
            },
    )
}

/// The gray value of a pixel: 0.299 red, 0.587 green and 0.114 blue,
/// rounded down.
pub open spec fn luminance(red: u8, green: u8, blue: u8) -> u8 {
    ((299 * red + 587 * green + 114 * blue) / 1000) as u8
}

/// RGB samples turned to gray, one sample per pixel.
pub open spec fn grayscale_of(rgb: Seq<u8>) -> Seq<u8> {
    Seq::new(
        (rgb.len() / 3) as nat,
        |i: int| luminance(rgb[3 * i], rgb[3 * i + 1], rgb[3 * i + 2]),
    )
}

/// Gray samples spread to RGB, three equal samples per pixel.
pub open spec fn rgb_of_gray(gray: Seq<u8>) -> Seq<u8> {
    Seq::new((gray.len() * 3) as nat, |i: int| gray[i / 3])
}

/// Whether the conversion between two color spaces is supported.
pub open spec fn conversion_supported(from: ColorSpace, to: ColorSpace) -> bool {
    ||| from == to
    ||| (from == ColorSpace::RGB && to == ColorSpace::RGBA)
    ||| (from == ColorSpace::RGBA && to == ColorSpace::RGB)
    ||| (from == ColorSpace::RGB && to == ColorSpace::Grayscale)
    ||| (from == ColorSpace::Grayscale && to == ColorSpace::RGB)
}

/// What converting samples between color spaces gives: the samples
/// themselves between equal spaces; nothing where the data does not hold
/// exactly the picture, or where the conversion is not supported.
pub open spec fn converted(data: Seq<u8>, from: ColorSpace, to: ColorSpace, dimensions: Dimensions)
    -> Option<Seq<u8>> {
    if from == to {
        Some(data)
    } else if data.len() != dimensions.spec_pixel_count() * from.spec_bytes_per_pixel() {
        None
    } else if from == ColorSpace::RGB && to == ColorSpace::RGBA {
        Some(with_opaque_alpha(data))
    } else if from == ColorSpace::RGBA && to == ColorSpace::RGB {
        Some(without_alpha(data))
    } else if from == ColorSpace::RGB && to == ColorSpace::Grayscale {
        Some(grayscale_of(data))
    } else if from == ColorSpace::Grayscale && to == ColorSpace::RGB {
        Some(rgb_of_gray(data))
    } else {
        None
    }
}

fn add_opaque_alpha(rgb: &[u8]) -> (out: Vec<u8>)
    ensures
        out@ == with_opaque_alpha(rgb@),
{
    let len: usize = rgb.len();
    let count: usize = len / 3;
    let mut out: Vec<u8> = Vec::new();
    let mut p: usize = 0;
    while p < count
        invariant
            p <= count,
            len == rgb@.len(),
            count == len / 3,
            out@.len() == p * 4,
            forall|i: int|
                0 <= i < out@.len() ==> out@[i] == if i % 4 == 3 {
                    255u8
                } else {
                    rgb@[i / 4 * 3 + i % 4]
                },
        decreases count - p,
    {
        let ghost before = out@;
        let base: usize = p * 3;
        out.push(rgb[base]);
        out.push(rgb[base + 1]);
        out.push(rgb[base + 2]);
        out.push(255);
        proof {
            assert forall|i: int| 0 <= i < out@.len() implies out@[i] == if i % 4 == 3 {
                255u8
            } else {
                rgb@[i / 4 * 3 + i % 4]
            } by {
                if i < before.len() {
                    assert(out@[i] == before[i]);
                } else {
                    assert(i / 4 == p as int);
                }
            }
        }
        p += 1;
    }
    assert(out@ =~= with_opaque_alpha(rgb@));
    out
}

fn to_grayscale(rgb: &[u8]) -> (out: Vec<u8>)
    ensures
        out@ == grayscale_of(rgb@),
{
    let len: usize = rgb.len();
    let count: usize = len / 3;
    let mut out: Vec<u8> = Vec::new();
    let mut p: usize = 0;
    while p < count
        invariant
            p <= count,
            len == rgb@.len(),
            count == len / 3,
            out@.len() == p,
            forall|i: int|
                0 <= i < p ==> out@[i] == luminance(rgb@[3 * i], rgb@[3 * i + 1], rgb@[3 * i + 2]),
        decreases count - p,
    {
        let base: usize = 3 * p;
        let red = rgb[base] as u32;
        let green = rgb[base + 1] as u32;
        let blue = rgb[base + 2] as u32;
        let gray: u32 = (299 * red + 587 * green + 114 * blue) / 1000;
        out.push(gray as u8);
        p += 1;
    }
    assert(out@ =~= grayscale_of(rgb@));
    out
}

fn spread_gray(gray: &[u8]) -> (out: Vec<u8>)
    ensures
        out@ == rgb_of_gray(gray@),
{
    let mut out: Vec<u8> = Vec::new();
    let mut p: usize = 0;
    while p < gray.len()
        invariant
            p <= gray@.len(),
            out@.len() == p * 3,
            forall|i: int| 0 <= i < out@.len() ==> out@[i] == gray@[i / 3],
        decreases gray@.len() - p,
    {
        let ghost before = out@;
        out.push(gray[p]);
        out.push(gray[p]);
        out.push(gray[p]);
        proof {
            assert forall|i: int| 0 <= i < out@.len() implies out@[i] == gray@[i / 3] by {
                if i < before.len() {
                    assert(out@[i] == before[i]);
                } else {
                    assert(i / 3 == p as int);
                }
            }
        }
        p += 1;
    }
    assert(out@ =~= rgb_of_gray(gray@));
    out
}

/// Converts samples between color spaces.
pub fn convert_color_space(data: &[u8], from: ColorSpace, to: ColorSpace, dimensions: &Dimensions)
    -> (r: Result<Vec<u8>, ImageError>)
    ensures
        match converted(data@, from, to, *dimensions) {
            Some(bytes) => r matches Ok(out) && out@ == bytes,
            None => r matches Err(ImageError::ProcessingError(_)),
        },
{
    if from == to {
        return Ok(slice_to_vec(data));
    }
    let pixels = dimensions.pixel_count();
    let each = from.bytes_per_pixel();
    assert(pixels * each <= 0xffff_ffff_ffff_ffff * 4) by (nonlinear_arith)
        requires
            0 <= pixels <= 0xffff_ffff_ffff_ffff,
            0 <= each <= 4,
    ;
    let expected: u128 = pixels as u128 * each as u128;
    if data.len() as u128 != expected {
        return Err(
            ImageError::ProcessingError(
                String::from_str("Input data size does not match the dimensions"),
            ),
        );
    }
    match (from, to) {
        (ColorSpace::RGB, ColorSpace::RGBA) => Ok(add_opaque_alpha(data)),
        (ColorSpace::RGBA, ColorSpace::RGB) => Ok(drop_alpha(data)),
        (ColorSpace::RGB, ColorSpace::Grayscale) => Ok(to_grayscale(data)),
        (ColorSpace::Grayscale, ColorSpace::RGB) => Ok(spread_gray(data)),
        _ => Err(
            ImageError::ProcessingError(String::from_str("Color space conversion not implemented")),
        ),
    }
}

/// The samples after the resize step of web optimization.
pub open spec fn after_resize(data: Seq<u8>, metadata: ImageMetadata, params: ProcessingParams)
    -> Option<Seq<u8>> {
    match params.target_dimensions {
        Some(target) => resized(data, metadata, target),
        None => Some(data),
    }
}

/// Whether web optimization drops the alpha channel: the picture is RGBA
/// and alpha optimization is switched off.
pub open spec fn drops_alpha(metadata: ImageMetadata, params: ProcessingParams) -> bool {
    metadata.color_space == ColorSpace::RGBA && !params.optimize_alpha
}

/// The dimensions that the samples have after the resize step.
pub open spec fn working_dimensions(metadata: ImageMetadata, params: ProcessingParams)
    -> Dimensions {
    match params.target_dimensions {
        Some(target) => target,
        None => metadata.dimensions,
    }
}

/// The samples after the alpha step of web optimization.
pub open spec fn after_alpha(data: Seq<u8>, metadata: ImageMetadata, params: ProcessingParams)
    -> Option<Seq<u8>> {
    match after_resize(data, metadata, params) {
        Some(samples) => if drops_alpha(metadata, params) {
            converted(
                samples,
                ColorSpace::RGBA,
                ColorSpace::RGB,
                working_dimensions(metadata, params),
            )
        } else {
            Some(samples)
        },
        None => None,
    }
}

/// The length to which the quality step cuts samples: eight tenths of the
/// quality's share of them, rounded down.
pub open spec fn quality_length(length: nat, quality: u8) -> nat {
    (length * quality * 8 / 1000) as nat
}

/// Whether the quality step of web optimization cuts the samples.
pub open spec fn quality_cuts(length: nat, params: ProcessingParams) -> bool {
    !params.lossless && params.quality < 100 && quality_length(length, params.quality) < length
}

/// The samples that web optimization gives, if it succeeds.
pub open spec fn web_optimized(data: Seq<u8>, metadata: ImageMetadata, params: ProcessingParams)
    -> Option<Seq<u8>> {
    match after_alpha(data, metadata, params) {
        Some(samples) => if quality_cuts(samples.len(), params) {
            Some(samples.subrange(0, quality_length(samples.len(), params.quality) as int))
        } else {
            Some(samples)
        },
        None => None,
    }
}

/// The names of the operations that web optimization applies, in order.
pub open spec fn web_operations(data: Seq<u8>, metadata: ImageMetadata, params: ProcessingParams)
    -> Seq<Seq<char>> {
    let resize = match params.target_dimensions {
        Some(target) => seq![
            "Resize to "@ + decimal(target.width as nat) + "x"@ + decimal(target.height as nat),
        ],
        None => Seq::<Seq<char>>::empty(),
    };
    let alpha = if drops_alpha(metadata, params) {
        seq!["Remove unused alpha channel"@]
    } else {
        Seq::<Seq<char>>::empty()
    };
    let quality = match after_alpha(data, metadata, params) {
        Some(samples) => if quality_cuts(samples.len(), params) {
            seq!["Apply quality "@ + decimal(params.quality as nat)]
        } else {
            Seq::<Seq<char>>::empty()
        },
        None => Seq::<Seq<char>>::empty(),
    };
    let strip = if !params.preserve_metadata {
        seq!["Remove metadata"@]
    } else {
        Seq::<Seq<char>>::empty()
    };
    resize + alpha + quality + strip
}

/// Whether `e` is the error with which web optimization fails: that of the
/// resize where the resize fails, `ProcessingError` where the alpha channel
/// cannot be dropped.
pub open spec fn is_web_error(
    e: ImageError,
    data: Seq<u8>,
    metadata: ImageMetadata,
    params: ProcessingParams,
) -> bool {
    match after_resize(data, metadata, params) {
        None => params.target_dimensions matches Some(target) && is_resize_error(
            e,
            metadata,
            target,
        ),
        Some(_) => e is ProcessingError,
    }
}

/// Optimizes a picture for web delivery: resizes it if the parameters say
/// so, drops an alpha channel that is not to be optimized, cuts the samples
/// to the quality unless the processing is lossless, and notes each
/// operation. Fails where the resize or the conversion fails, with the
/// error of the step that failed.
pub fn optimize_for_web(data: &[u8], metadata: &ImageMetadata, params: &ProcessingParams) -> (r:
    Result<ProcessingResult, ImageError>)
    ensures
        match web_optimized(data@, *metadata, *params) {
            Some(samples) => r matches Ok(result) && result.data@ == samples
                && result.original_size == data@.len() && result.processed_size == samples.len()
                && texts(result.operations_applied@) == web_operations(
                data@,
                *metadata,
                *params,
            ),
            None => r matches Err(e) && is_web_error(e, data@, *metadata, *params),
        },
{
    let timer = start_timer();
    let mut operations: Vec<String> = Vec::new();
    let original_size = data.len();
    let mut processed = match params.target_dimensions {
        Some(target) => {
            let resized = match resize_image(data, metadata, &target) {
                Ok(resized) => resized,
                Err(e) => {
                    return Err(e);
                },
            };
            let w = decimal_string(target.width as u64);
            let h = decimal_string(target.height as u64);
            operations.push(join2("Resize to ", w.as_str()).concat("x").concat(h.as_str()));
            resized
        },
        None => slice_to_vec(data),
    };
    if metadata.color_space == ColorSpace::RGBA && !params.optimize_alpha {
        let dimensions = match params.target_dimensions {
            Some(target) => target,
            None => metadata.dimensions,
        };
        processed =
        match convert_color_space(
            processed.as_slice(),
            ColorSpace::RGBA,
            ColorSpace::RGB,
            &dimensions,
        ) {
            Ok(converted) => converted,
            Err(e) => {
                return Err(e);
            },
        };
        operations.push(String::from_str("Remove unused alpha channel"));
    }
    if !params.lossless && params.quality < 100 {
        let length = processed.len();
        assert(length * params.quality * 8 <= 0xffff_ffff_ffff_ffff * 100 * 8)
            by (nonlinear_arith)
            requires
                0 <= length <= 0xffff_ffff_ffff_ffff,
                0 <= params.quality <= 100,
        ;
        let target: u128 = length as u128 * params.quality as u128 * 8 / 1000;
        if target < length as u128 {
            processed.truncate(target as usize);
            let q = decimal_string(params.quality as u64);
            operations.push(join2("Apply quality ", q.as_str()));
        }
    }
    if !params.preserve_metadata {
        operations.push(String::from_str("Remove metadata"));
    }
    let processing_time_ms = milliseconds_since(&timer);
    let processed_size = processed.len();
    assert(texts(operations@) =~= web_operations(data@, *metadata, *params));
    Ok(
        ProcessingResult {
            data: processed,
            original_size,
            processed_size,
            operations_applied: operations,
            processing_time_ms,
        },
    )
}

/// A side of a picture cropped by a tenth, rounded down, but never to
/// nothing.
pub open spec fn cropped_side(side: u32) -> u32 {
    if side * 9 / 10 < 1 {
        1
    } else {
        (side * 9 / 10) as u32
    }
}

/// The dimensions of a picture after the automatic crop.
pub open spec fn cropped_dimensions(dimensions: Dimensions) -> Dimensions {
    Dimensions {
        width: cropped_side(dimensions.width),
        height: cropped_side(dimensions.height),
    }
}

fn crop_side(side: u32) -> (r: u32)
    ensures
        r == cropped_side(side),
        r >= 1,
{
    let cut: u64 = side as u64 * 9 / 10;
    if cut < 1 {
        1
    } else {
        cut as u32
    }
}

/// Crops a picture by a tenth of each side and fits the samples to the new
/// dimensions.
pub fn auto_crop(data: &[u8], metadata: &ImageMetadata) -> (r: Result<
    (Vec<u8>, Dimensions),
    ImageError,
>)
    ensures
        match resized(data@, *metadata, cropped_dimensions(metadata.dimensions)) {
            Some(samples) => r matches Ok(pair) && pair.0@ == samples && pair.1
                == cropped_dimensions(metadata.dimensions),
            None => r matches Err(e) && is_resize_error(
                e,
                *metadata,
                cropped_dimensions(metadata.dimensions),
            ),
        },
{
    let dimensions = Dimensions {
        width: crop_side(metadata.dimensions.width),
        height: crop_side(metadata.dimensions.height),
    };
    match resize_image(data, metadata, &dimensions) {
        Ok(samples) => Ok((samples, dimensions)),
        Err(e) => Err(e),
    }
}

/// A sample after sharpening with a strength in millionths: its distance
/// from the middle gray grows by a fifth of the strength, rounded down, and
/// the result is kept within a byte.
pub open spec fn sharpened(sample: u8, strength: u32) -> u8 {
    let raised = 128 + (sample - 128) * (5_000_000 + strength) / 5_000_000;
    if raised < 0 {
        0u8
    } else if raised > 255 {
        255u8
    } else {
        raised as u8
    }
}

/// Applies sharpening to samples. The strength is in millionths, from zero
/// to one million; a greater one is refused with `ProcessingError`.
pub fn apply_sharpening(data: &[u8], strength: u32) -> (r: Result<Vec<u8>, ImageError>)
    ensures
        strength > 1_000_000 ==> (r matches Err(ImageError::ProcessingError(_))),
        strength <= 1_000_000 ==> (r matches Ok(out) && out@.len() == data@.len() && (forall|
            i: int,
        |
            0 <= i < data@.len() ==> out@[i] == sharpened(data@[i], strength))),
        strength == 0 ==> (r matches Ok(out) && out@ == data@),
{
    if strength > 1_000_000 {
        return Err(
            ImageError::ProcessingError(
                String::from_str("Sharpening strength must be between 0.0 and 1.0"),
            ),
        );
    }
    let mut out: Vec<u8> = Vec::new();
    let mut i: usize = 0;
    while i < data.len()
        invariant
            i <= data@.len(),
            strength <= 1_000_000,
            out@.len() == i,
            forall|j: int| 0 <= j < i ==> out@[j] == sharpened(data@[j], strength),
            strength == 0 ==> out@ == data@.subrange(0, i as int),
        decreases data@.len() - i,
    {
        let distance: i128 = data[i] as i128 - 128;
        let factor: i128 = 5_000_000 + strength as i128;
        assert(-128 * 6_000_000 <= distance * factor <= 127 * 6_000_000) by (nonlinear_arith)
            requires
                -128 <= distance <= 127,
                5_000_000 <= factor <= 6_000_000,
        ;
        let raised: i128 = 128 + crate::fixed::floor_div(distance * factor, 5_000_000);
        let sample: u8 = if raised < 0 {
            0
        } else if raised > 255 {
            255
        } else {
            raised as u8
        };
        proof {
            if strength == 0 {
                assert(distance * 5_000_000 / 5_000_000 == distance) by (nonlinear_arith);
            }
        }
        out.push(sample);
        assert(strength == 0 ==> out@ =~= data@.subrange(0, i + 1));
        i += 1;
    }
    assert(data@.subrange(0, data@.len() as int) =~= data@);
    Ok(out)
}

/// The marker that a progressive stream begins with: the bytes of
/// "PROGRESSIVE_JPEG_HEADER".
pub open spec fn progressive_header() -> Seq<u8> {
    seq![
        0x50u8, 0x52u8, 0x4Fu8, 0x47u8, 0x52u8, 0x45u8, 0x53u8, 0x53u8, 0x49u8, 0x56u8, 0x45u8,
        0x5Fu8, 0x4Au8, 0x50u8, 0x45u8, 0x47u8, 0x5Fu8, 0x48u8, 0x45u8, 0x41u8, 0x44u8, 0x45u8,
        0x52u8,
    ]
}

/// The ends of the three scans of a progressive stream: three tenths, six
/// tenths and all of the quality's share of the data, each rounded down.
pub open spec fn scan_ends(length: nat, quality: u8) -> (nat, nat, nat) {
    (
        (length * 3 * quality / 1000) as nat,
        (length * 6 * quality / 1000) as nat,
        (length * quality / 100) as nat,
    )
}

/// The progressive stream for data at a quality: the marker, then the data
/// up to the end of the first scan, then up to the ends of the second and
/// third scan as far as each lies beyond the scan before it and within the
/// data.
pub open spec fn progressive_stream(data: Seq<u8>, quality: u8) -> Seq<u8> {
    let (low, medium, full) = scan_ends(data.len(), quality);
    let first = if low <= data.len() {
        data.subrange(0, low as int)
    } else {
        data
    };
    let second = if medium > low && medium <= data.len() {
        data.subrange(low as int, medium as int)
    } else {
        Seq::<u8>::empty()
    };
    let third = if full > medium && full <= data.len() {
        data.subrange(medium as int, full as int)
    } else {
        Seq::<u8>::empty()
    };
    progressive_header() + first + second + third
}

/// Whether a format token names JPEG, ignoring letter case.
pub open spec fn is_jpeg_format(format: Seq<char>) -> bool {
    lowercase(format) == "jpeg"@ || lowercase(format) == "jpg"@
}

fn push_range(out: &mut Vec<u8>, data: &[u8], from: usize, to: usize)
    requires
        from <= to <= data@.len(),
    ensures
        final(out)@ == old(out)@ + data@.subrange(from as int, to as int),
{
    let mut i: usize = from;
    while i < to
        invariant
            from <= i <= to <= data@.len(),
            out@ == old(out)@ + data@.subrange(from as int, i as int),
        decreases to - i,
    {
        out.push(data[i]);
        assert(out@ =~= old(out)@ + data@.subrange(from as int, i + 1));
        i += 1;
    }
}

/// Lays the data of a JPEG picture out as a progressive stream. Fails with
/// `ProcessingError` exactly when the format of the metadata is not JPEG.
pub fn create_progressive_jpeg(data: &[u8], metadata: &ImageMetadata, quality: u8) -> (r: Result<
    Vec<u8>,
    ImageError,
>)
    ensures
        is_jpeg_format(metadata.format@) ==> (r matches Ok(out) && out@ == progressive_stream(
            data@,
            quality,
        )),
        !is_jpeg_format(metadata.format@) ==> (r matches Err(ImageError::ProcessingError(_))),
{
    let lower = to_lowercase(metadata.format.as_str());
    if !str_eq(lower.as_str(), "jpeg") && !str_eq(lower.as_str(), "jpg") {
        return Err(
            ImageError::ProcessingError(
                String::from_str("Progressive encoding only applies to JPEG format"),
            ),
        );
    }
    let mut out: Vec<u8> = Vec::new();
    let header: [u8; 23] = [
        0x50, 0x52, 0x4F, 0x47, 0x52, 0x45, 0x53, 0x53, 0x49, 0x56, 0x45, 0x5F, 0x4A, 0x50, 0x45,
        0x47, 0x5F, 0x48, 0x45, 0x41, 0x44, 0x45, 0x52,
    ];
    let mut h: usize = 0;
    while h < 23
        invariant
            h <= 23,
            out@ == header@.subrange(0, h as int),
        decreases 23 - h,
    {
        out.push(header[h]);
        assert(out@ =~= header@.subrange(0, h + 1));
        h += 1;
    }
    assert(out@ =~= progressive_header());
    let length = data.len();
    assert(length * 6 * quality <= 0xffff_ffff_ffff_ffff * 6 * 255) by (nonlinear_arith)
        requires
            0 <= length <= 0xffff_ffff_ffff_ffff,
            0 <= quality <= 255,
    ;
    assert(length * 3 * quality <= 0xffff_ffff_ffff_ffff * 3 * 255) by (nonlinear_arith)
        requires
            0 <= length <= 0xffff_ffff_ffff_ffff,
            0 <= quality <= 255,
    ;
    assert(length * quality <= 0xffff_ffff_ffff_ffff * 255) by (nonlinear_arith)
        requires
            0 <= length <= 0xffff_ffff_ffff_ffff,
            0 <= quality <= 255,
    ;
    let low: u128 = length as u128 * 3 * quality as u128 / 1000;
    let medium: u128 = length as u128 * 6 * quality as u128 / 1000;
    let full: u128 = length as u128 * quality as u128 / 100;
    let first_end: usize = if low <= length as u128 {
        low as usize
    } else {
        length
    };
    push_range(&mut out, data, 0, first_end);
    assert(data@.subrange(0, length as int) =~= data@);
    if medium > low && medium <= length as u128 {
        push_range(&mut out, data, low as usize, medium as usize);
    }
    if full > medium && full <= length as u128 {
        push_range(&mut out, data, medium as usize, full as usize);
    }
    assert(out@ =~= progressive_stream(data@, quality));
    Ok(out)
}

} // verus!
