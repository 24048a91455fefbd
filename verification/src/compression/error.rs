//! Errors of compression and of statistics.

use crate::text::{decimal, decimal_string, join2};
use vstd::prelude::*;
use vstd::string::*;

verus! {

/// Errors that can occur during compression operations.
#[derive(Debug, Clone, PartialEq)]
pub enum CompressionError {
    /// Invalid compression settings.
    InvalidSettings(String),
    /// Unsupported image format.
    UnsupportedFormat(String),
    /// Image processing failed.
    ProcessingFailed(String),
    /// A codec failed to decode or encode.
    ProcessingError(String),
    /// I/O error during compression.
    IoError(String),
    /// Compression ratio too low; the ratio is held in millionths.
    InsufficientCompression(u64),
}

impl CompressionError {
    /// The text that describes the error.
    pub open spec fn spec_to_string(self) -> Seq<char> {
        match self {
            CompressionError::InvalidSettings(msg) => "Invalid compression settings: "@ + msg@,
            CompressionError::UnsupportedFormat(format) => "Unsupported image format: "@
                + format@,
            CompressionError::ProcessingFailed(msg) => "Image processing failed: "@ + msg@,
            CompressionError::ProcessingError(msg) => "Image processing error: "@ + msg@,
            CompressionError::IoError(msg) => "I/O error: "@ + msg@,
            CompressionError::InsufficientCompression(ratio) => "Compression ratio too low: "@
                + decimal((ratio / 10_000) as nat) + "%"@,
        }
    }

    /// Describes the error in words.
    pub fn to_string(&self) -> (s: String)
        ensures
            s@ == self.spec_to_string(),
    {
        match self {
            CompressionError::InvalidSettings(msg) => join2(
                "Invalid compression settings: ",
                msg.as_str(),
            ),
            CompressionError::UnsupportedFormat(format) => join2(
                "Unsupported image format: ",
                format.as_str(),
            ),
            CompressionError::ProcessingFailed(msg) => join2(
                "Image processing failed: ",
                msg.as_str(),
            ),
            CompressionError::ProcessingError(msg) => join2(
                "Image processing error: ",
                msg.as_str(),
            ),
            CompressionError::IoError(msg) => join2("I/O error: ", msg.as_str()),
            CompressionError::InsufficientCompression(ratio) => {
                let percent = decimal_string(*ratio / 10_000);
                join2("Compression ratio too low: ", percent.as_str()).concat("%")
            },
        }
    }
}

/// Errors that can occur during statistics operations.
#[derive(Debug, Clone, PartialEq)]
pub enum StatsError {
    /// Database connection failed.
    DatabaseError(String),
    /// Invalid query parameters.
    InvalidQuery(String),
    /// Statistics not available.
    NotAvailable,
    /// Serialization error.
    SerializationError(String),
}

impl StatsError {
    /// The text that describes the error.
    pub open spec fn spec_to_string(self) -> Seq<char> {
        match self {
            StatsError::DatabaseError(msg) => "Database error: "@ + msg@,
            StatsError::InvalidQuery(msg) => "Invalid query: "@ + msg@,
            StatsError::NotAvailable => "Statistics not available"@,
            StatsError::SerializationError(msg) => "Serialization error: "@ + msg@,
        }
    }

    /// Describes the error in words.
    pub fn to_string(&self) -> (s: String)
        ensures
            s@ == self.spec_to_string(),
    {
        match self {
            StatsError::DatabaseError(msg) => join2("Database error: ", msg.as_str()),
            StatsError::InvalidQuery(msg) => join2("Invalid query: ", msg.as_str()),
            StatsError::NotAvailable => String::from_str("Statistics not available"),
            StatsError::SerializationError(msg) => join2("Serialization error: ", msg.as_str()),
        }
    }
}

} // verus!
