//! Checks on values that come from outside.

use crate::shared::error::DomainError;
use crate::shared::paths::{
    format_listed, lists_format, normalize_extension, normalized_extension,
};
use crate::text::{decimal, decimal_string, join2};
use vstd::prelude::*;
use vstd::string::*;

verus! {

/// Whether dimensions are not zero and within the given bounds.
pub open spec fn dimensions_valid(width: u32, height: u32, max_width: u32, max_height: u32) -> bool {
    width != 0 && height != 0 && width <= max_width && height <= max_height
}

/// Validates image dimensions: fails with `InvalidInput` exactly when a
/// side is zero or exceeds its bound.
pub fn validate_dimensions(width: u32, height: u32, max_width: u32, max_height: u32) -> (r:
    Result<(), DomainError>)
    ensures
        r is Ok == dimensions_valid(width, height, max_width, max_height),
        r matches Err(e) ==> e is InvalidInput,
{
    if width == 0 || height == 0 {
        return Err(DomainError::InvalidInput(String::from_str("Dimensions cannot be zero")));
    }
    if width > max_width || height > max_height {
        let w = decimal_string(width as u64);
        let h = decimal_string(height as u64);
        let mw = decimal_string(max_width as u64);
        let mh = decimal_string(max_height as u64);
        let msg = join2("Dimensions ", w.as_str()).concat("x").concat(h.as_str()).concat(
            " exceed maximum ",
        ).concat(mw.as_str()).concat("x").concat(mh.as_str());
        return Err(DomainError::InvalidInput(msg));
    }
    Ok(())
}

/// Validates a quality value: fails with `InvalidInput` exactly when it is
/// outside 1..=100.
pub fn validate_quality(quality: u8) -> (r: Result<(), DomainError>)
    ensures
        r is Ok == (1 <= quality <= 100),
        r matches Err(e) ==> (e matches DomainError::InvalidInput(msg) && msg@ == "Quality "@
            + decimal(quality as nat) + " must be between 1 and 100"@),
{
    if quality < 1 || quality > 100 {
        let q = decimal_string(quality as u64);
        let msg = join2("Quality ", q.as_str()).concat(" must be between 1 and 100");
        return Err(DomainError::InvalidInput(msg));
    }
    Ok(())
}

/// Validates a file format against a list of supported formats, ignoring
/// letter case and leading dots of the format: fails with `InvalidInput`
/// exactly when no listed format matches.
pub fn validate_format(format: &str, supported_formats: &Vec<String>) -> (r: Result<
    (),
    DomainError,
>)
    ensures
        r is Ok == lists_format(supported_formats@, normalized_extension(format@)),
        r matches Err(e) ==> (e matches DomainError::InvalidInput(msg) && msg@
            == "Unsupported format: "@ + format@),
{
    let normalized = normalize_extension(format);
    if !format_listed(supported_formats, normalized.as_str()) {
        return Err(DomainError::InvalidInput(join2("Unsupported format: ", format)));
    }
    Ok(())
}

} // verus!
