//! Errors of file operations.

use crate::text::join2;
use vstd::prelude::*;

verus! {

/// Errors that can occur during file operations.
#[derive(Debug, Clone)]
pub enum FileError {
    /// File not found.
    NotFound(String),
    /// Permission denied.
    PermissionDenied(String),
    /// Invalid path.
    InvalidPath(String),
    /// IO operation failed.
    IoError(String),
    /// File format not supported.
    UnsupportedFormat(String),
    /// Path traversal or security violation.
    SecurityViolation(String),
}

impl FileError {
    /// The text that describes the error.
    pub open spec fn spec_to_string(self) -> Seq<char> {
        match self {
            FileError::NotFound(path) => "File not found: "@ + path@,
            FileError::PermissionDenied(path) => "Permission denied: "@ + path@,
            FileError::InvalidPath(path) => "Invalid path: "@ + path@,
            FileError::IoError(msg) => "IO error: "@ + msg@,
            FileError::UnsupportedFormat(format) => "Unsupported format: "@ + format@,
            FileError::SecurityViolation(msg) => "Security violation: "@ + msg@,
        }
    }

    /// Describes the error in words.
    pub fn to_string(&self) -> (s: String)
        ensures
            s@ == self.spec_to_string(),
    {
        match self {
            FileError::NotFound(path) => join2("File not found: ", path.as_str()),
            FileError::PermissionDenied(path) => join2("Permission denied: ", path.as_str()),
            FileError::InvalidPath(path) => join2("Invalid path: ", path.as_str()),
            FileError::IoError(msg) => join2("IO error: ", msg.as_str()),
            FileError::UnsupportedFormat(format) => join2("Unsupported format: ", format.as_str()),
            FileError::SecurityViolation(msg) => join2("Security violation: ", msg.as_str()),
        }
    }
}

} // verus!
