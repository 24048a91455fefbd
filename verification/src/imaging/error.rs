//! Errors of operations on pictures.

use crate::file::error::FileError;
use crate::text::join2;
use vstd::prelude::*;

verus! {

/// Errors that can occur during image operations.
#[derive(Debug, Clone)]
pub enum ImageError {
    /// Invalid image format or corrupted data.
    InvalidFormat(String),
    /// Unsupported image format.
    UnsupportedFormat(String),
    /// Image processing failed.
    ProcessingError(String),
    /// Invalid dimensions.
    InvalidDimensions(String),
    /// Color space conversion error.
    ColorSpaceError(String),
    /// Memory allocation error.
    MemoryError(String),
    /// File I/O error.
    IoError(String),
}

impl ImageError {
    /// The text that describes the error.
    pub open spec fn spec_to_string(self) -> Seq<char> {
        match self {
            ImageError::InvalidFormat(msg) => "Invalid image format: "@ + msg@,
            ImageError::UnsupportedFormat(format) => "Unsupported format: "@ + format@,
            ImageError::ProcessingError(msg) => "Processing error: "@ + msg@,
            ImageError::InvalidDimensions(msg) => "Invalid dimensions: "@ + msg@,
            ImageError::ColorSpaceError(msg) => "Color space error: "@ + msg@,
            ImageError::MemoryError(msg) => "Memory error: "@ + msg@,
            ImageError::IoError(msg) => "I/O error: "@ + msg@,
        }
    }

    /// Describes the error in words.
    pub fn to_string(&self) -> (s: String)
        ensures
            s@ == self.spec_to_string(),
    {
        match self {
            ImageError::InvalidFormat(msg) => join2("Invalid image format: ", msg.as_str()),
            ImageError::UnsupportedFormat(format) => join2(
                "Unsupported format: ",
                format.as_str(),
            ),
            ImageError::ProcessingError(msg) => join2("Processing error: ", msg.as_str()),
            ImageError::InvalidDimensions(msg) => join2("Invalid dimensions: ", msg.as_str()),
            ImageError::ColorSpaceError(msg) => join2("Color space error: ", msg.as_str()),
            ImageError::MemoryError(msg) => join2("Memory error: ", msg.as_str()),
            ImageError::IoError(msg) => join2("I/O error: ", msg.as_str()),
        }
    }

    /// Whether `image` is the image error that stands for a file error: an
    /// unsupported format and an I/O failure keep their kind, a missing
    /// file becomes an I/O failure, everything else a processing error that
    /// carries the file error's text.
    pub open spec fn stands_for_file_error(image: ImageError, file: FileError) -> bool {
        match file {
            FileError::UnsupportedFormat(format) => image matches ImageError::UnsupportedFormat(f)
                && f@ == format@,
            FileError::NotFound(path) => image matches ImageError::IoError(msg) && msg@
                == "File not found: "@ + path@,
            FileError::IoError(reason) => image matches ImageError::IoError(msg) && msg@
                == reason@,
            _ => image matches ImageError::ProcessingError(msg) && msg@ == file.spec_to_string(),
        }
    }

    /// Converts a file error.
    pub fn from_file_error(error: FileError) -> (image: ImageError)
        ensures
            Self::stands_for_file_error(image, error),
    {
        match error {
            FileError::UnsupportedFormat(format) => ImageError::UnsupportedFormat(format),
            FileError::NotFound(path) => ImageError::IoError(
                join2("File not found: ", path.as_str()),
            ),
            FileError::IoError(msg) => ImageError::IoError(msg),
            other => ImageError::ProcessingError(other.to_string()),
        }
    }
}

impl From<FileError> for ImageError {
    fn from(error: FileError) -> (image: ImageError) {
        ImageError::from_file_error(error)
    }
}

impl vstd::std_specs::convert::FromSpecImpl<FileError> for ImageError {
    /// Nothing is claimed of `from` as a whole: what it returns is stated,
    /// over the texts that the errors carry, by the conversion that it
    /// calls.
    open spec fn obeys_from_spec() -> bool {
        false
    }

    open spec fn from_spec(error: FileError) -> ImageError {
        arbitrary()
    }
}

} // verus!
