//! Pictures and dropped files as the shell hands them over.

use crate::file::path::{extension_of, path_extension};
use crate::fixed::{savings_percent, savings_percent_micros};
use crate::text::{lowercase, str_eq, to_lowercase};
use vstd::prelude::*;
use vstd::string::*;

verus! {

/// Sizes of a picture before and after compression.
#[derive(Debug, Clone)]
pub struct ImageInfo {
    pub original_size: u64,
    pub compressed_size: u64,
    pub format: String,
    pub path: String,
}

impl ImageInfo {
    /// Describes a picture that was not compressed yet.
    pub fn new(path: String, format: String, original_size: u64) -> (info: ImageInfo)
        ensures
            info.path == path,
            info.format == format,
            info.original_size == original_size,
            info.compressed_size == 0,
    {
        ImageInfo { original_size, compressed_size: 0, format, path }
    }

    /// Returns the description with the compressed size set.
    pub fn with_compressed_size(self, compressed_size: u64) -> (info: ImageInfo)
        ensures
            info.path == self.path,
            info.format == self.format,
            info.original_size == self.original_size,
            info.compressed_size == compressed_size,
    {
        ImageInfo {
            original_size: self.original_size,
            compressed_size,
            format: self.format,
            path: self.path,
        }
    }

    /// The saving in millionths of a percent; zero for an empty original.
    pub fn savings_percent(&self) -> (r: i128)
        ensures
            r == savings_percent_micros(self.original_size as int, self.compressed_size as int),
    {
        savings_percent(self.original_size, self.compressed_size)
    }

    /// Compressed size over original size in millionths, rounded down; one
    /// for an empty original.
    pub open spec fn spec_compression_ratio(self) -> int {
        if self.original_size == 0 {
            1_000_000
        } else {
            self.compressed_size * 1_000_000 / (self.original_size as int)
        }
    }

    /// The compression ratio in millionths.
    pub fn compression_ratio(&self) -> (r: u128)
        ensures
            r == self.spec_compression_ratio(),
    {
        if self.original_size == 0 {
            1_000_000
        } else {
            self.compressed_size as u128 * 1_000_000 / self.original_size as u128
        }
    }
}

/// A file dropped onto the application.
#[derive(Debug, Clone)]
pub struct DroppedFile {
    pub name: String,
    pub data: Vec<u8>,
}

/// Whether a lowercase extension is that of a picture the library
/// compresses.
pub open spec fn is_supported_extension(extension: Seq<char>) -> bool {
    extension == "png"@ || extension == "jpg"@ || extension == "jpeg"@ || extension == "webp"@
}

/// Tests `is_supported_extension`.
pub fn supported_extension(extension: &str) -> (b: bool)
    ensures
        b == is_supported_extension(extension@),
{
    str_eq(extension, "png") || str_eq(extension, "jpg") || str_eq(extension, "jpeg") || str_eq(
        extension,
        "webp",
    )
}

impl DroppedFile {
    /// Wraps a name and the bytes that came with it.
    pub fn new(name: String, data: Vec<u8>) -> (file: DroppedFile)
        ensures
            file.name == name,
            file.data == data,
    {
        DroppedFile { name, data }
    }

    /// The number of bytes.
    pub fn size(&self) -> (n: usize)
        ensures
            n == self.data@.len(),
    {
        self.data.len()
    }

    /// The extension of the name, if it has one.
    pub fn extension(&self) -> (r: Option<String>)
        ensures
            r is Some == path_extension(self.name@) is Some,
            r matches Some(extension) ==> path_extension(self.name@) == Some(extension@),
    {
        extension_of(self.name.as_str())
    }

    /// Whether the name has the extension of a supported picture, ignoring
    /// letter case.
    pub open spec fn spec_is_image(self) -> bool {
        match path_extension(self.name@) {
            Some(extension) => is_supported_extension(lowercase(extension)),
            None => false,
        }
    }

    /// Tests whether the file is a supported picture, by its name.
    pub fn is_image(&self) -> (b: bool)
        ensures
            b == self.spec_is_image(),
    {
        match self.extension() {
            Some(extension) => {
                let lower = to_lowercase(extension.as_str());
                supported_extension(lower.as_str())
            },
            None => false,
        }
    }
}

} // verus!
