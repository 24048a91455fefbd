//! Files as the library sees them: names, extensions and sizes.

pub mod error;
pub mod metadata;
pub mod operations;
pub mod path;
