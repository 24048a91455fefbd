//! Pictures: metadata, classification and processing of raw samples.

pub mod analysis;
pub mod error;
pub mod metadata;
pub mod processing;
pub mod workflow;
