//! Errors common to every part of the library, and how to recover from them.

use crate::compression::error::CompressionError;
use crate::file::error::FileError;
use crate::imaging::error::ImageError;
use crate::text::join2;
use vstd::prelude::*;
use vstd::string::*;

verus! {

/// Common domain errors that can occur across all domains.
#[derive(Debug, Clone)]
pub enum DomainError {
    /// Invalid input provided to a domain operation.
    InvalidInput(String),
    /// Resource not found.
    NotFound(String),
    /// Permission denied for operation.
    PermissionDenied(String),
    /// Internal system error.
    Internal(String),
    /// Configuration error.
    Configuration(String),
    /// Network or external service error.
    External(String),
    /// Rate limiting or resource exhaustion.
    ResourceLimit(String),
}

impl DomainError {
    /// The text that describes the error.
    pub open spec fn spec_to_string(self) -> Seq<char> {
        match self {
            DomainError::InvalidInput(msg) => "Invalid input: "@ + msg@,
            DomainError::NotFound(resource) => "Not found: "@ + resource@,
            DomainError::PermissionDenied(operation) => "Permission denied: "@ + operation@,
            DomainError::Internal(msg) => "Internal error: "@ + msg@,
            DomainError::Configuration(msg) => "Configuration error: "@ + msg@,
            DomainError::External(msg) => "External service error: "@ + msg@,
            DomainError::ResourceLimit(msg) => "Resource limit exceeded: "@ + msg@,
        }
    }

    /// Describes the error in words.
    pub fn to_string(&self) -> (s: String)
        ensures
            s@ == self.spec_to_string(),
    {
        match self {
            DomainError::InvalidInput(msg) => join2("Invalid input: ", msg.as_str()),
            DomainError::NotFound(resource) => join2("Not found: ", resource.as_str()),
            DomainError::PermissionDenied(operation) => join2(
                "Permission denied: ",
                operation.as_str(),
            ),
            DomainError::Internal(msg) => join2("Internal error: ", msg.as_str()),
            DomainError::Configuration(msg) => join2("Configuration error: ", msg.as_str()),
            DomainError::External(msg) => join2("External service error: ", msg.as_str()),
            DomainError::ResourceLimit(msg) => join2("Resource limit exceeded: ", msg.as_str()),
        }
    }

    /// Whether `domain` is the domain error that stands for a file error.
    pub open spec fn stands_for_file_error(domain: DomainError, file: FileError) -> bool {
        match file {
            FileError::NotFound(path) => domain matches DomainError::NotFound(p) && p@ == path@,
            FileError::PermissionDenied(path) => domain matches DomainError::PermissionDenied(p)
                && p@ == path@,
            FileError::InvalidPath(msg) => domain matches DomainError::InvalidInput(m) && m@
                == msg@,
            FileError::SecurityViolation(msg) => domain matches DomainError::PermissionDenied(m)
                && m@ == msg@,
            FileError::UnsupportedFormat(format) => domain matches DomainError::InvalidInput(m)
                && m@ == "Unsupported format: "@ + format@,
            FileError::IoError(msg) => domain matches DomainError::Internal(m) && m@ == msg@,
        }
    }

    /// Converts a file error.
    pub fn from_file_error(error: FileError) -> (domain: DomainError)
        ensures
            Self::stands_for_file_error(domain, error),
    {
        match error {
            FileError::NotFound(path) => DomainError::NotFound(path),
            FileError::PermissionDenied(path) => DomainError::PermissionDenied(path),
            FileError::InvalidPath(msg) => DomainError::InvalidInput(msg),
            FileError::SecurityViolation(msg) => DomainError::PermissionDenied(msg),
            FileError::UnsupportedFormat(format) => DomainError::InvalidInput(
                join2("Unsupported format: ", format.as_str()),
            ),
            FileError::IoError(msg) => DomainError::Internal(msg),
        }
    }

    /// Whether `domain` is the domain error that stands for an image error.
    pub open spec fn stands_for_image_error(domain: DomainError, image: ImageError) -> bool {
        match image {
            ImageError::InvalidFormat(msg) => domain matches DomainError::InvalidInput(m) && m@
                == msg@,
            ImageError::UnsupportedFormat(format) => domain matches DomainError::InvalidInput(m)
                && m@ == "Unsupported format: "@ + format@,
            ImageError::ProcessingError(msg) => domain matches DomainError::Internal(m) && m@
                == msg@,
            ImageError::InvalidDimensions(msg) => domain matches DomainError::InvalidInput(m)
                && m@ == msg@,
            ImageError::ColorSpaceError(msg) => domain matches DomainError::Internal(m) && m@
                == msg@,
            ImageError::MemoryError(msg) => domain matches DomainError::ResourceLimit(m) && m@
                == msg@,
            ImageError::IoError(msg) => domain matches DomainError::Internal(m) && m@ == msg@,
        }
    }

    /// Converts an image error.
    pub fn from_image_error(error: ImageError) -> (domain: DomainError)
        ensures
            Self::stands_for_image_error(domain, error),
    {
        match error {
            ImageError::InvalidFormat(msg) => DomainError::InvalidInput(msg),
            ImageError::UnsupportedFormat(format) => DomainError::InvalidInput(
                join2("Unsupported format: ", format.as_str()),
            ),
            ImageError::ProcessingError(msg) => DomainError::Internal(msg),
            ImageError::InvalidDimensions(msg) => DomainError::InvalidInput(msg),
            ImageError::ColorSpaceError(msg) => DomainError::Internal(msg),
            ImageError::MemoryError(msg) => DomainError::ResourceLimit(msg),
            ImageError::IoError(msg) => DomainError::Internal(msg),
        }
    }

    /// Whether `domain` is the domain error that stands for a compression
    /// error.
    pub open spec fn stands_for_compression_error(
        domain: DomainError,
        compression: CompressionError,
    ) -> bool {
        match compression {
            CompressionError::UnsupportedFormat(format) => domain matches DomainError::InvalidInput(
                m,
            ) && m@ == "Unsupported format: "@ + format@,
            CompressionError::InvalidSettings(msg) => domain matches DomainError::InvalidInput(m)
                && m@ == msg@,
            CompressionError::ProcessingFailed(msg) => domain matches DomainError::Internal(m)
                && m@ == msg@,
            CompressionError::IoError(msg) => domain matches DomainError::Internal(m) && m@
                == msg@,
            CompressionError::InsufficientCompression(_) => domain matches DomainError::Internal(
                m,
            ) && m@ == "Insufficient compression achieved"@,
            CompressionError::ProcessingError(msg) => domain matches DomainError::Internal(m)
                && m@ == msg@,
        }
    }

    /// Converts a compression error.
    pub fn from_compression_error(error: CompressionError) -> (domain: DomainError)
        ensures
            Self::stands_for_compression_error(domain, error),
    {
        match error {
            CompressionError::UnsupportedFormat(format) => DomainError::InvalidInput(
                join2("Unsupported format: ", format.as_str()),
            ),
            CompressionError::InvalidSettings(msg) => DomainError::InvalidInput(msg),
            CompressionError::ProcessingFailed(msg) => DomainError::Internal(msg),
            CompressionError::IoError(msg) => DomainError::Internal(msg),
            CompressionError::InsufficientCompression(_) => DomainError::Internal(
                String::from_str("Insufficient compression achieved"),
            ),
            CompressionError::ProcessingError(msg) => DomainError::Internal(msg),
        }
    }
}

impl From<FileError> for DomainError {
    fn from(error: FileError) -> (domain: DomainError) {
        DomainError::from_file_error(error)
    }
}

impl vstd::std_specs::convert::FromSpecImpl<FileError> for DomainError {
    /// Nothing is claimed of `from` as a whole: what it returns is stated,
    /// over the texts that the errors carry, by the conversion that it
    /// calls.
    open spec fn obeys_from_spec() -> bool {
        false
    }

    open spec fn from_spec(error: FileError) -> DomainError {
        arbitrary()
    }
}

impl From<ImageError> for DomainError {
    fn from(error: ImageError) -> (domain: DomainError) {
        DomainError::from_image_error(error)
    }
}

impl vstd::std_specs::convert::FromSpecImpl<ImageError> for DomainError {
    /// Nothing is claimed of `from` as a whole: what it returns is stated,
    /// over the texts that the errors carry, by the conversion that it
    /// calls.
    open spec fn obeys_from_spec() -> bool {
        false
    }

    open spec fn from_spec(error: ImageError) -> DomainError {
        arbitrary()
    }
}

impl From<CompressionError> for DomainError {
    fn from(error: CompressionError) -> (domain: DomainError) {
        DomainError::from_compression_error(error)
    }
}

impl vstd::std_specs::convert::FromSpecImpl<CompressionError> for DomainError {
    /// Nothing is claimed of `from` as a whole: what it returns is stated,
    /// over the texts that the errors carry, by the conversion that it
    /// calls.
    open spec fn obeys_from_spec() -> bool {
        false
    }

    open spec fn from_spec(error: CompressionError) -> DomainError {
        arbitrary()
    }
}

/// Error recovery strategies.
#[derive(Debug, Clone)]
pub enum ErrorRecovery {
    /// Retry the operation.
    Retry { max_attempts: u32, backoff_ms: u64 },
    /// Use fallback approach.
    Fallback(String),
    /// Skip and continue.
    Skip,
    /// Abort operation.
    Abort,
}

/// Whether `recovery` is the strategy for an error: outside failures are
/// retried three times a second apart, exhausted resources twice five
/// seconds apart, internal failures fall back to safe defaults, and
/// everything else aborts.
pub open spec fn is_recovery_for(recovery: ErrorRecovery, error: DomainError) -> bool {
    match error {
        DomainError::External(_) => recovery matches ErrorRecovery::Retry {
            max_attempts: 3,
            backoff_ms: 1000,
        },
        DomainError::ResourceLimit(_) => recovery matches ErrorRecovery::Retry {
            max_attempts: 2,
            backoff_ms: 5000,
        },
        DomainError::Internal(_) => recovery matches ErrorRecovery::Fallback(how) && how@
            == "Using safe defaults"@,
        _ => recovery is Abort,
    }
}

/// Chooses the recovery strategy for an error.
pub fn get_recovery_strategy(error: &DomainError) -> (recovery: ErrorRecovery)
    ensures
        is_recovery_for(recovery, *error),
{
    match error {
        DomainError::External(_) => ErrorRecovery::Retry { max_attempts: 3, backoff_ms: 1000 },
        DomainError::ResourceLimit(_) => ErrorRecovery::Retry { max_attempts: 2, backoff_ms: 5000 },
        DomainError::Internal(_) => ErrorRecovery::Fallback(
            String::from_str("Using safe defaults"),
        ),
        DomainError::InvalidInput(_) => ErrorRecovery::Abort,
        DomainError::NotFound(_) => ErrorRecovery::Abort,
        DomainError::PermissionDenied(_) => ErrorRecovery::Abort,
        DomainError::Configuration(_) => ErrorRecovery::Abort,
    }
}

} // verus!
