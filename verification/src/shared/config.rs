//! Configuration of the application, and its validation.

use crate::compression::settings::{clamp_quality, clamped_quality};
use crate::shared::error::DomainError;
use crate::shared::paths::{format_listed, lists_format};
use crate::text::{lowercase, texts, to_lowercase};
use vstd::prelude::*;
use vstd::string::*;

verus! {

/// Compression-specific configuration.
#[derive(Debug, Clone, Copy)]
pub struct CompressionConfig {
    pub default_quality: u8,
    pub enable_lossless_fallback: bool,
    pub max_dimensions: (u32, u32),
    pub preserve_metadata: bool,
    pub auto_optimize: bool,
}

/// Performance configuration.
#[derive(Debug, Clone, Copy, PartialEq, Eq, Structural)]
pub struct PerformanceConfig {
    pub max_concurrent_operations: usize,
    pub memory_limit_mb: u64,
    pub disk_cache_size_mb: u64,
    pub enable_gpu_acceleration: bool,
}

/// Security configuration.
#[derive(Debug, Clone)]
pub struct SecurityConfig {
    pub allowed_paths: Vec<String>,
    pub blocked_paths: Vec<String>,
    pub max_path_depth: u32,
    pub enable_sandbox: bool,
}

/// Application configuration.
#[derive(Debug, Clone)]
pub struct AppConfig {
    pub temp_dir: String,
    pub max_file_size: u64,
    pub supported_formats: Vec<String>,
    pub cleanup_interval_hours: u32,
    pub compression: CompressionConfig,
    pub performance: PerformanceConfig,
    pub security: SecurityConfig,
}

/// Calls `num_cpus::get`: the number of logical processors. Depends on the
/// machine: nothing is claimed of the result.
#[verifier::external_body]
fn available_cpus() -> usize {
    ::num_cpus::get()
}

impl Default for CompressionConfig {
    fn default() -> (config: CompressionConfig)
        ensures
            config == (CompressionConfig {
                default_quality: 80,
                enable_lossless_fallback: true,
                max_dimensions: (4096u32, 4096u32),
                preserve_metadata: false,
                auto_optimize: true,
            }),
    {
        CompressionConfig {
            default_quality: 80,
            enable_lossless_fallback: true,
            max_dimensions: (4096, 4096),
            preserve_metadata: false,
            auto_optimize: true,
        }
    }
}

/// How many operations run at once on a machine with a number of
/// processors: one for each, but at least four.
pub open spec fn operations_for(cpus: usize) -> usize {
    if cpus < 4 {
        4
    } else {
        cpus
    }
}

/// The performance settings for a machine with a number of processors.
pub fn performance_for(cpus: usize) -> (config: PerformanceConfig)
    ensures
        config == (PerformanceConfig {
            max_concurrent_operations: operations_for(cpus),
            memory_limit_mb: 1024,
            disk_cache_size_mb: 512,
            enable_gpu_acceleration: false,
        }),
{
    PerformanceConfig {
        max_concurrent_operations: if cpus < 4 {
            4
        } else {
            cpus
        },
        memory_limit_mb: 1024,
        disk_cache_size_mb: 512,
        enable_gpu_acceleration: false,
    }
}

impl Default for PerformanceConfig {
    /// As many operations at once as the machine has processors, but at
    /// least four.
    fn default() -> (config: PerformanceConfig)
        ensures
            config.max_concurrent_operations >= 4,
            config.memory_limit_mb == 1024,
            config.disk_cache_size_mb == 512,
            !config.enable_gpu_acceleration,
    {
        performance_for(available_cpus())
    }
}

impl Default for SecurityConfig {
    fn default() -> (config: SecurityConfig)
        ensures
            texts(config.allowed_paths@) == seq![
                "~/Desktop"@,
                "~/Documents"@,
                "~/Downloads"@,
                "~/Pictures"@,
            ],
            texts(config.blocked_paths@) == seq!["/etc"@, "/proc"@, "/sys"@, "/dev"@],
            config.max_path_depth == 20,
            config.enable_sandbox,
    {
        let mut allowed_paths: Vec<String> = Vec::new();
        allowed_paths.push(String::from_str("~/Desktop"));
        allowed_paths.push(String::from_str("~/Documents"));
        allowed_paths.push(String::from_str("~/Downloads"));
        allowed_paths.push(String::from_str("~/Pictures"));
        let mut blocked_paths: Vec<String> = Vec::new();
        blocked_paths.push(String::from_str("/etc"));
        blocked_paths.push(String::from_str("/proc"));
        blocked_paths.push(String::from_str("/sys"));
        blocked_paths.push(String::from_str("/dev"));
        assert(texts(allowed_paths@) =~= seq![
            "~/Desktop"@,
            "~/Documents"@,
            "~/Downloads"@,
            "~/Pictures"@,
        ]);
        assert(texts(blocked_paths@) =~= seq!["/etc"@, "/proc"@, "/sys"@, "/dev"@]);
        SecurityConfig { allowed_paths, blocked_paths, max_path_depth: 20, enable_sandbox: true }
    }
}

impl CompressionConfig {
    /// The default quality lies in 1..=100 and no maximum dimension is
    /// zero.
    pub open spec fn spec_is_valid(self) -> bool {
        1 <= self.default_quality <= 100 && self.max_dimensions.0 != 0 && self.max_dimensions.1
            != 0
    }

    /// Validates the configuration: fails with `Configuration` exactly when
    /// it is not valid.
    pub fn validate(&self) -> (r: Result<(), DomainError>)
        ensures
            r is Ok == self.spec_is_valid(),
            r matches Err(e) ==> e is Configuration,
    {
        if self.default_quality < 1 || self.default_quality > 100 {
            return Err(
                DomainError::Configuration(
                    String::from_str("Default quality must be between 1 and 100"),
                ),
            );
        }
        if self.max_dimensions.0 == 0 || self.max_dimensions.1 == 0 {
            return Err(
                DomainError::Configuration(String::from_str("Max dimensions must be greater than 0")),
            );
        }
        Ok(())
    }
}

impl PerformanceConfig {
    /// At least one operation at a time, and some memory.
    pub open spec fn spec_is_valid(self) -> bool {
        self.max_concurrent_operations != 0 && self.memory_limit_mb != 0
    }

    /// Validates the configuration: fails with `Configuration` exactly when
    /// it is not valid.
    pub fn validate(&self) -> (r: Result<(), DomainError>)
        ensures
            r is Ok == self.spec_is_valid(),
            r matches Err(e) ==> e is Configuration,
    {
        if self.max_concurrent_operations == 0 {
            return Err(
                DomainError::Configuration(
                    String::from_str("Max concurrent operations must be greater than 0"),
                ),
            );
        }
        if self.memory_limit_mb == 0 {
            return Err(
                DomainError::Configuration(String::from_str("Memory limit must be greater than 0")),
            );
        }
        Ok(())
    }
}

impl SecurityConfig {
    /// Paths may be at least one component deep.
    pub open spec fn spec_is_valid(self) -> bool {
        self.max_path_depth != 0
    }

    /// Validates the configuration: fails with `Configuration` exactly when
    /// it is not valid.
    pub fn validate(&self) -> (r: Result<(), DomainError>)
        ensures
            r is Ok == self.spec_is_valid(),
            r matches Err(e) ==> e is Configuration,
    {
        if self.max_path_depth == 0 {
            return Err(
                DomainError::Configuration(String::from_str("Max path depth must be greater than 0")),
            );
        }
        Ok(())
    }
}

impl AppConfig {
    /// The configuration is valid: the temporary directory is named, files
    /// may have some size, a format is supported, and every part is valid.
    pub open spec fn spec_is_valid(self) -> bool {
        &&& self.temp_dir@.len() != 0
        &&& self.max_file_size != 0
        &&& self.supported_formats@.len() != 0
        &&& self.compression.spec_is_valid()
        &&& self.performance.spec_is_valid()
        &&& self.security.spec_is_valid()
    }

    /// The default configuration for a temporary directory: files up to
    /// 100 MiB, the formats png, jpg, jpeg and webp, a cleanup a day, and
    /// the defaults of every part.
    pub fn with_temp_dir(temp_dir: String) -> (config: AppConfig)
        ensures
            config.temp_dir == temp_dir,
            config.max_file_size == 104_857_600,
            texts(config.supported_formats@) == seq!["png"@, "jpg"@, "jpeg"@, "webp"@],
            config.cleanup_interval_hours == 24,
            config.compression.spec_is_valid(),
            config.performance.spec_is_valid(),
            config.security.spec_is_valid(),
            temp_dir@.len() != 0 ==> config.spec_is_valid(),
    {
        let mut supported_formats: Vec<String> = Vec::new();
        supported_formats.push(String::from_str("png"));
        supported_formats.push(String::from_str("jpg"));
        supported_formats.push(String::from_str("jpeg"));
        supported_formats.push(String::from_str("webp"));
        assert(texts(supported_formats@) =~= seq!["png"@, "jpg"@, "jpeg"@, "webp"@]);
        AppConfig {
            temp_dir,
            max_file_size: 104_857_600,
            supported_formats,
            cleanup_interval_hours: 24,
            compression: CompressionConfig::default(),
            performance: PerformanceConfig::default(),
            security: SecurityConfig::default(),
        }
    }

    /// Validates the configuration: fails with `Configuration` exactly when
    /// it is not valid.
    pub fn validate(&self) -> (r: Result<(), DomainError>)
        ensures
            r is Ok == self.spec_is_valid(),
            r matches Err(e) ==> e is Configuration,
    {
        if self.temp_dir.as_str().unicode_len() == 0 {
            return Err(
                DomainError::Configuration(String::from_str("Temp directory cannot be empty")),
            );
        }
        if self.max_file_size == 0 {
            return Err(
                DomainError::Configuration(String::from_str("Max file size must be greater than 0")),
            );
        }
        if self.supported_formats.len() == 0 {
            return Err(
                DomainError::Configuration(
                    String::from_str("At least one supported format must be specified"),
                ),
            );
        }
        match self.compression.validate() {
            Ok(()) => {},
            Err(e) => {
                return Err(e);
            },
        }
        match self.performance.validate() {
            Ok(()) => {},
            Err(e) => {
                return Err(e);
            },
        }
        self.security.validate()
    }

    /// Gets the path of the temporary directory.
    pub fn get_temp_path(&self) -> (path: String)
        ensures
            path@ == self.temp_dir@,
    {
        self.temp_dir.clone()
    }

    /// Checks if a file size is within the limit.
    pub fn is_file_size_allowed(&self, size: u64) -> (b: bool)
        ensures
            b == (size <= self.max_file_size),
    {
        size <= self.max_file_size
    }

    /// Checks if a format is supported, ignoring letter case.
    pub fn is_format_supported(&self, format: &str) -> (b: bool)
        ensures
            b == lists_format(self.supported_formats@, lowercase(format@)),
    {
        let normalized = to_lowercase(format);
        format_listed(&self.supported_formats, normalized.as_str())
    }

    /// Applies overrides, as they come from the environment, to the
    /// configuration: a temporary directory, a maximum file size, and a
    /// default quality, which is clamped to 1..=100. What is not given
    /// stays as it is.
    pub fn apply_overrides(
        &mut self,
        temp_dir: Option<String>,
        max_file_size: Option<u64>,
        default_quality: Option<u8>,
    )
        ensures
            final(self).temp_dir == (match temp_dir {
                Some(dir) => dir,
                None => old(self).temp_dir,
            }),
            final(self).max_file_size == (match max_file_size {
                Some(size) => size,
                None => old(self).max_file_size,
            }),
            final(self).compression == (match default_quality {
                Some(q) => CompressionConfig {
                    default_quality: clamp_quality(q),
                    ..old(self).compression
                },
                None => old(self).compression,
            }),
            final(self).supported_formats == old(self).supported_formats,
            final(self).cleanup_interval_hours == old(self).cleanup_interval_hours,
            final(self).performance == old(self).performance,
            final(self).security == old(self).security,
    {
        match temp_dir {
            Some(dir) => {
                self.temp_dir = dir;
            },
            None => {},
        }
        match max_file_size {
            Some(size) => {
                self.max_file_size = size;
            },
            None => {},
        }
        match default_quality {
            Some(q) => {
                self.compression.default_quality = clamped_quality(q);
            },
            None => {},
        }
    }
}

/// Configuration manager for runtime config access.
pub struct ConfigManager {
    pub config: AppConfig,
}

impl ConfigManager {
    /// Creates a manager with the default configuration for a temporary
    /// directory.
    pub fn new(temp_dir: String) -> (manager: ConfigManager)
        ensures
            manager.config.temp_dir == temp_dir,
            temp_dir@.len() != 0 ==> manager.config.spec_is_valid(),
    {
        ConfigManager { config: AppConfig::with_temp_dir(temp_dir) }
    }

    /// Creates a manager for a configuration that was read from a file;
    /// fails with `Configuration` exactly when the configuration is not
    /// valid.
    pub fn from_config(config: AppConfig) -> (r: Result<ConfigManager, DomainError>)
        ensures
            r is Ok == config.spec_is_valid(),
            r matches Ok(manager) ==> manager.config == config,
            r matches Err(e) ==> e is Configuration,
    {
        match config.validate() {
            Ok(()) => Ok(ConfigManager { config }),
            Err(e) => Err(e),
        }
    }

    /// Gets the current configuration.
    pub fn get_config(&self) -> (config: &AppConfig)
        ensures
            *config == self.config,
    {
        &self.config
    }

    /// Replaces the configuration by a valid one; an invalid one is
    /// refused with `Configuration` and changes nothing.
    pub fn update_config(&mut self, new_config: AppConfig) -> (r: Result<(), DomainError>)
        ensures
            r is Ok == new_config.spec_is_valid(),
            r is Ok ==> final(self).config == new_config,
            r is Err ==> final(self).config == old(self).config,
            r matches Err(e) ==> e is Configuration,
    {
        match new_config.validate() {
            Ok(()) => {
                self.config = new_config;
                Ok(())
            },
            Err(e) => Err(e),
        }
    }
}

} // verus!
