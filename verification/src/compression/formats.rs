//! The formats that the engine writes.

use crate::text::{lowercase, str_eq, to_lowercase};
use vstd::prelude::*;

verus! {

/// Target codec of a compression request.
#[derive(Debug, Clone, Copy, PartialEq, Eq, Hash, Structural)]
pub enum OutputFormat {
    Png,
    Jpeg,
    WebP,
}

impl OutputFormat {
    /// File extension of the format, without a dot.
    pub open spec fn spec_extension(self) -> Seq<char> {
        match self {
            OutputFormat::Png => "png"@,
            OutputFormat::Jpeg => "jpg"@,
            OutputFormat::WebP => "webp"@,
        }
    }

    /// Returns the file extension for this format.
    pub fn extension(&self) -> (ext: &'static str)
        ensures
            ext@ == self.spec_extension(),
    {
        match self {
            OutputFormat::Png => "png",
            OutputFormat::Jpeg => "jpg",
            OutputFormat::WebP => "webp",
        }
    }

    /// The format that a lowercase token names, if any.
    pub open spec fn spec_from_lowercase(token: Seq<char>) -> Option<OutputFormat> {
        if token == "png"@ {
            Some(OutputFormat::Png)
        } else if token == "jpeg"@ || token == "jpg"@ {
            Some(OutputFormat::Jpeg)
        } else if token == "webp"@ {
            Some(OutputFormat::WebP)
        } else {
            None
        }
    }

    /// Parses an output format from a token that is already lowercase.
    pub fn from_lowercase(token: &str) -> (r: Option<OutputFormat>)
        ensures
            r == Self::spec_from_lowercase(token@),
    {
        if str_eq(token, "png") {
            Some(OutputFormat::Png)
        } else if str_eq(token, "jpeg") || str_eq(token, "jpg") {
            Some(OutputFormat::Jpeg)
        } else if str_eq(token, "webp") {
            Some(OutputFormat::WebP)
        } else {
            None
        }
    }

    /// Parses an output format from a string, ignoring letter case.
    pub fn from_string(format: &str) -> (r: Option<OutputFormat>)
        ensures
            r == Self::spec_from_lowercase(lowercase(format@)),
    {
        let lower = to_lowercase(format);
        Self::from_lowercase(lower.as_str())
    }

    /// MIME type of the format.
    pub open spec fn spec_mime_type(self) -> Seq<char> {
        match self {
            OutputFormat::Png => "image/png"@,
            OutputFormat::Jpeg => "image/jpeg"@,
            OutputFormat::WebP => "image/webp"@,
        }
    }

    /// Returns the MIME type for this format.
    pub fn mime_type(&self) -> (mime: &'static str)
        ensures
            mime@ == self.spec_mime_type(),
    {
        match self {
            OutputFormat::Png => "image/png",
            OutputFormat::Jpeg => "image/jpeg",
            OutputFormat::WebP => "image/webp",
        }
    }

    /// Whether the format can encode without loss.
    pub open spec fn spec_supports_lossless(self) -> bool {
        self == OutputFormat::Png || self == OutputFormat::WebP
    }

    /// Returns true if this format supports lossless compression.
    pub fn supports_lossless(&self) -> (b: bool)
        ensures
            b == self.spec_supports_lossless(),
    {
        match self {
            OutputFormat::Png => true,
            OutputFormat::Jpeg => false,
            OutputFormat::WebP => true,
        }
    }

    /// Display name of the format.
    pub open spec fn spec_name(self) -> Seq<char> {
        match self {
            OutputFormat::Png => "PNG"@,
            OutputFormat::Jpeg => "JPEG"@,
            OutputFormat::WebP => "WebP"@,
        }
    }

    /// Returns the display name of the format.
    pub fn name(&self) -> (s: &'static str)
        ensures
            s@ == self.spec_name(),
    {
        match self {
            OutputFormat::Png => "PNG",
            OutputFormat::Jpeg => "JPEG",
            OutputFormat::WebP => "WebP",
        }
    }

    /// Token under which the format is recorded in statistics.
    pub open spec fn spec_token(self) -> Seq<char> {
        match self {
            OutputFormat::Png => "png"@,
            OutputFormat::Jpeg => "jpeg"@,
            OutputFormat::WebP => "webp"@,
        }
    }

    /// Returns the lowercase token of the format.
    pub fn token(&self) -> (s: &'static str)
        ensures
            s@ == self.spec_token(),
    {
        match self {
            OutputFormat::Png => "png",
            OutputFormat::Jpeg => "jpeg",
            OutputFormat::WebP => "webp",
        }
    }
}

} // verus!
