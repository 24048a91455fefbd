//! Helpers shared by every part of the library.

pub mod config;
pub mod error;
pub mod events;
pub mod hash;
pub mod parse;
pub mod paths;
pub mod size;
pub mod strings;
pub mod time;
pub mod validation;
pub mod version;
