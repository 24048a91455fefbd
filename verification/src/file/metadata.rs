//! What is known of a file: its name, extension, size and kind.

use crate::entities::{is_supported_extension, supported_extension};
use crate::file::error::FileError;
use crate::file::path::{extension_of, file_name_of, path_extension, path_file_name};
use crate::shared::size::{format_size, size_in_words};
use crate::text::{lowercase, str_eq, to_lowercase};
use vstd::prelude::*;
use vstd::string::*;

verus! {

/// File metadata information.
#[derive(Debug, Clone)]
pub struct FileMetadata {
    pub path: String,
    pub name: String,
    pub extension: Option<String>,
    pub size: u64,
    pub is_image: bool,
    pub mime_type: Option<String>,
    /// ISO 8601 timestamp.
    pub modified: Option<String>,
    /// ISO 8601 timestamp.
    pub created: Option<String>,
}

/// Whether a lowercase extension is that of a picture of any kind.
pub open spec fn is_image_extension(extension: Seq<char>) -> bool {
    is_supported_extension(extension) || extension == "gif"@ || extension == "bmp"@ || extension
        == "tiff"@
}

/// Tests `is_image_extension`.
pub fn image_extension(extension: &str) -> (b: bool)
    ensures
        b == is_image_extension(extension@),
{
    supported_extension(extension) || str_eq(extension, "gif") || str_eq(extension, "bmp")
        || str_eq(extension, "tiff")
}

/// MIME type of a lowercase extension.
pub open spec fn spec_mime_type(extension: Seq<char>) -> Seq<char> {
    if extension == "jpg"@ || extension == "jpeg"@ {
        "image/jpeg"@
    } else if extension == "png"@ {
        "image/png"@
    } else if extension == "webp"@ {
        "image/webp"@
    } else if extension == "gif"@ {
        "image/gif"@
    } else if extension == "bmp"@ {
        "image/bmp"@
    } else if extension == "tiff"@ {
        "image/tiff"@
    } else {
        "application/octet-stream"@
    }
}

/// Gets the MIME type for a file extension.
pub fn get_mime_type(extension: &str) -> (mime: String)
    ensures
        mime@ == spec_mime_type(extension@),
{
    if str_eq(extension, "jpg") || str_eq(extension, "jpeg") {
        String::from_str("image/jpeg")
    } else if str_eq(extension, "png") {
        String::from_str("image/png")
    } else if str_eq(extension, "webp") {
        String::from_str("image/webp")
    } else if str_eq(extension, "gif") {
        String::from_str("image/gif")
    } else if str_eq(extension, "bmp") {
        String::from_str("image/bmp")
    } else if str_eq(extension, "tiff") {
        String::from_str("image/tiff")
    } else {
        String::from_str("application/octet-stream")
    }
}

/// The lowercase extension of a path, if the path has an extension.
pub open spec fn spec_file_extension(path: Seq<char>) -> Option<Seq<char>> {
    match path_extension(path) {
        Some(extension) => Some(lowercase(extension)),
        None => None,
    }
}

/// Gets the file extension from a path, in lowercase.
pub fn get_file_extension(path: &str) -> (r: Option<String>)
    ensures
        r is Some == spec_file_extension(path@) is Some,
        r matches Some(extension) ==> spec_file_extension(path@) == Some(extension@),
{
    match extension_of(path) {
        Some(extension) => Some(to_lowercase(extension.as_str())),
        None => None,
    }
}

/// Whether a path has the extension of a supported picture.
pub open spec fn spec_is_supported_image_file(path: Seq<char>) -> bool {
    match spec_file_extension(path) {
        Some(extension) => is_supported_extension(extension),
        None => false,
    }
}

/// Checks if a path is a supported image file, by its extension.
pub fn is_supported_image_file(path: &str) -> (b: bool)
    ensures
        b == spec_is_supported_image_file(path@),
{
    match get_file_extension(path) {
        Some(extension) => supported_extension(extension.as_str()),
        None => false,
    }
}

/// Formats a file size in human-readable form, with units up to TB.
pub fn format_file_size(size: u64) -> (s: String)
    ensures
        s@ == size_in_words(size as nat, 4),
{
    format_size(size, 4)
}

impl FileMetadata {
    /// Whether `metadata` describes a file of the given path and size: name
    /// and extension are read from the path, the extension in lowercase,
    /// and kind and MIME type follow from the extension.
    pub open spec fn describes(metadata: FileMetadata, path: Seq<char>, size: u64) -> bool {
        &&& metadata.path@ == path
        &&& path_file_name(path) == Some(metadata.name@)
        &&& metadata.size == size
        &&& match spec_file_extension(path) {
            Some(extension) => {
                &&& metadata.extension matches Some(e) && e@ == extension
                &&& metadata.is_image == is_image_extension(extension)
                &&& metadata.mime_type matches Some(m) && m@ == spec_mime_type(extension)
            },
            None => metadata.extension is None && !metadata.is_image
                && metadata.mime_type is None,
        }
    }

    /// Describes a file from its path and what the file system says of it.
    /// Fails with `InvalidPath` exactly when the path has no file name.
    pub fn from_parts(
        path: &str,
        size: u64,
        modified: Option<String>,
        created: Option<String>,
    ) -> (r: Result<FileMetadata, FileError>)
        ensures
            path_file_name(path@) is None ==> (r matches Err(FileError::InvalidPath(_))),
            path_file_name(path@) is Some ==> (r matches Ok(metadata) && Self::describes(
                metadata,
                path@,
                size,
            ) && metadata.modified == modified && metadata.created == created),
    {
        let name = match file_name_of(path) {
            Some(name) => name,
            None => {
                return Err(FileError::InvalidPath(String::from_str("Cannot extract file name")));
            },
        };
        let extension = get_file_extension(path);
        let (is_image, mime_type) = match &extension {
            Some(e) => (image_extension(e.as_str()), Some(get_mime_type(e.as_str()))),
            None => (false, None),
        };
        Ok(
            FileMetadata {
                path: String::from_str(path),
                name,
                extension,
                size,
                is_image,
                mime_type,
                modified,
                created,
            },
        )
    }

    /// Whether the file is a picture of a supported format.
    pub open spec fn spec_is_supported_image(self) -> bool {
        self.is_image && match self.extension {
            Some(extension) => is_supported_extension(extension@),
            None => false,
        }
    }

    /// Checks if the file is a supported image format.
    pub fn is_supported_image(&self) -> (b: bool)
        ensures
            b == self.spec_is_supported_image(),
    {
        self.is_image && match &self.extension {
            Some(extension) => supported_extension(extension.as_str()),
            None => false,
        }
    }

    /// Gets the file size in human-readable form.
    pub fn human_readable_size(&self) -> (s: String)
        ensures
            s@ == size_in_words(self.size as nat, 4),
    {
        format_file_size(self.size)
    }
}

/// Largest size, in bytes, of a picture that is taken for processing.
pub const MAX_FILE_SIZE: u64 = 104_857_600;

/// Validates the description of a file for processing: fails with
/// `UnsupportedFormat` when the file is no supported picture, and with
/// `InvalidPath` when it is larger than 100 MiB.
pub fn validate_image_metadata(metadata: FileMetadata) -> (r: Result<FileMetadata, FileError>)
    ensures
        !metadata.spec_is_supported_image() ==> (r matches Err(FileError::UnsupportedFormat(_))),
        metadata.spec_is_supported_image() && metadata.size > MAX_FILE_SIZE ==> (r matches Err(
            FileError::InvalidPath(_),
        )),
        metadata.spec_is_supported_image() && metadata.size <= MAX_FILE_SIZE ==> r == Ok::<
            FileMetadata,
            FileError,
        >(metadata),
{
    if !metadata.is_supported_image() {
        return Err(FileError::UnsupportedFormat(String::from_str("Unsupported image format")));
    }
    if metadata.size > MAX_FILE_SIZE {
        return Err(FileError::InvalidPath(String::from_str("File too large")));
    }
    Ok(metadata)
}

} // verus!
