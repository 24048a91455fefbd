//! Compression settings, engine, statistics and progress estimation.

pub mod calculator;
pub mod codecs;
pub mod engine;
pub mod error;
pub mod formats;
pub mod prediction;
pub mod progress;
pub mod settings;
pub mod sqlite;
pub mod stats;
pub mod store;

pub use calculator::{EasingFunction, ProgressCalculator, ProgressConfig};
pub use engine::{compress, compress_bytes, create_compression_stat, CompressionOutput};
pub use error::{CompressionError, StatsError};
pub use formats::OutputFormat;
pub use prediction::{create_prediction_query, CompressionPredictionService};
pub use progress::{ProgressEstimation, ProgressEstimationQuery, ProgressEstimationService};
pub use settings::{
    high_quality_settings, max_compression_settings, web_optimized_settings, CompressionSettings,
};
pub use sqlite::SqliteStatsStore;
pub use stats::{
    calculate_confidence, create_stat, estimate_compression, get_size_range, CompressionStat,
    EstimationQuery, EstimationResult,
};
pub use store::{MemoryStatsStore, StatsStore};
