//! Image compression core: format-aware encode routing, settings validation,
//! and statistics-backed estimation of size savings and duration.
//!
//! Fractional quantities (percentages, ratios, confidence scores) are held as
//! integers counting millionths, so that every rule of the library is stated
//! and proved over exact arithmetic.

pub mod commands;
pub mod compression;
pub mod entities;
pub mod file;
pub mod fixed;
pub mod imaging;
pub mod services;
pub mod shared;
pub mod text;
