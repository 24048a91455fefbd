//! Requests and responses of the application shell, and the decisions that
//! its commands take between one outside step and the next.

use crate::compression::engine::CompressionOutput;
use crate::compression::formats::OutputFormat;
use crate::compression::progress::ProgressEstimationQuery;
use crate::compression::settings::{clamp_quality, CompressionSettings};
use crate::compression::error::StatsError;
use crate::compression::stats::{
    create_stat, create_stat_at, records, CompressionStat, EstimationQuery,
};
use crate::compression::store::StatsStore;
use crate::fixed::floor_div;
use crate::shared::time::current_timestamp;
use crate::file::path::{
    file_name_of, file_stem_of, join_paths, parent_of, path_file_name, path_file_stem,
    path_joined, path_parent,
};
use crate::text::{join2, lowercase, str_eq};
use vstd::prelude::*;
use vstd::string::*;

verus! {

/// Request to compress one picture.
#[derive(Debug, Clone)]
pub struct CompressImageRequest {
    pub file_path: String,
    pub quality: Option<u8>,
    pub format: Option<String>,
    pub output_path: Option<String>,
}

/// Sizes that a compression achieved.
#[derive(Debug, Clone)]
pub struct CompressionResult {
    pub original_size: u64,
    pub compressed_size: u64,
    /// Saving in millionths of a percent.
    pub savings_percent: i128,
    pub output_path: String,
}

/// Answer to a request to compress one picture.
#[derive(Debug, Clone)]
pub struct CompressImageResponse {
    pub success: bool,
    pub image_id: String,
    pub output_path: Option<String>,
    pub result: Option<CompressionResult>,
    pub error: Option<String>,
}

/// Stage of a compression, as reported to the shell.
#[derive(Debug, Clone, Copy, PartialEq, Eq, Structural)]
pub enum CompressionStage {
    Started,
    Processing,
    Completed,
    Error,
}

/// Progress of a compression, as reported to the shell.
#[derive(Debug, Clone)]
pub struct CompressionProgressEvent {
    pub image_id: String,
    pub image_name: String,
    pub stage: CompressionStage,
    /// Percentage in millionths of a percent.
    pub progress: u32,
    pub estimated_time_remaining: Option<u64>,
}

/// Request to compress several pictures.
#[derive(Debug, Clone)]
pub struct CompressBatchRequest {
    pub file_paths: Vec<String>,
    pub quality: Option<u8>,
    pub format: Option<String>,
    pub output_dir: Option<String>,
}

/// Answer to a request to compress several pictures.
#[derive(Debug, Clone)]
pub struct CompressBatchResponse {
    pub total_files: usize,
    pub successful: usize,
    pub failed: usize,
    pub results: Vec<CompressImageResponse>,
}

/// What the shell shows of a file.
#[derive(Debug, Clone)]
pub struct FileInfo {
    pub path: String,
    pub name: String,
    pub size: u64,
    pub extension: Option<String>,
    pub is_image: bool,
}

/// Request for a duration estimate.
#[derive(Debug, Clone)]
pub struct GetProgressEstimationRequest {
    pub input_format: String,
    pub output_format: String,
    pub original_size: u64,
    pub quality_setting: u8,
    pub lossy_mode: bool,
}

/// Request for a savings estimate.
#[derive(Debug, Clone)]
pub struct GetEstimationRequest {
    pub input_format: String,
    pub output_format: String,
    pub original_size: u64,
    pub quality_setting: u8,
    pub lossy_mode: bool,
}

/// Request to record an observation.
#[derive(Debug, Clone)]
pub struct RecordStatRequest {
    pub input_format: String,
    pub output_format: String,
    pub original_size: u64,
    pub compressed_size: u64,
    pub quality_setting: u8,
    pub lossy_mode: bool,
}

/// Request to record an observation with its duration.
#[derive(Debug, Clone)]
pub struct RecordStatWithTimeRequest {
    pub input_format: String,
    pub output_format: String,
    pub original_size: u64,
    pub compressed_size: u64,
    pub compression_time_ms: u64,
    pub tool_version: String,
}

/// An observation in the form in which seed data holds it.
#[derive(Debug, Clone)]
pub struct CompressionRecord {
    pub id: Option<i64>,
    pub input_format: String,
    pub output_format: String,
    pub original_size: i64,
    pub compressed_size: i64,
    pub tool_version: Option<String>,
    pub source_type: String,
    pub timestamp: String,
}

/// Observations to fill a new store with.
#[derive(Debug, Clone)]
pub struct SeedData {
    pub compression_stats: Vec<CompressionRecord>,
}

/// One line of the seed data: formats, sizes, and the tool that compressed.
pub open spec fn seed_line(record: CompressionRecord) -> (Seq<char>, Seq<char>, i64, i64, Seq<char>) {
    (
        record.input_format@,
        record.output_format@,
        record.original_size,
        record.compressed_size,
        match record.tool_version {
            Some(version) => version@,
            None => Seq::<char>::empty(),
        },
    )
}

/// The observations that a new store is filled with: formats, sizes in
/// bytes, and the tool that compressed.
pub open spec fn seed_table() -> Seq<(Seq<char>, Seq<char>, i64, i64, Seq<char>)> {
    seq![
        ("PNG"@, "WebP"@, 1024000i64, 256000i64, "v1.3.2"@),
        ("PNG"@, "WebP"@, 2048000i64, 460800i64, "v1.3.2"@),
        ("PNG"@, "WebP"@, 512000i64, 122880i64, "v1.3.2"@),
        ("PNG"@, "WebP"@, 4096000i64, 983040i64, "v1.3.2"@),
        ("PNG"@, "WebP"@, 256000i64, 61440i64, "v1.3.2"@),
        ("JPEG"@, "WebP"@, 800000i64, 560000i64, "v1.3.2"@),
        ("JPEG"@, "WebP"@, 1500000i64, 1050000i64, "v1.3.2"@),
        ("JPEG"@, "WebP"@, 600000i64, 420000i64, "v1.3.2"@),
        ("JPEG"@, "WebP"@, 2000000i64, 1400000i64, "v1.3.2"@),
        ("JPEG"@, "WebP"@, 300000i64, 210000i64, "v1.3.2"@),
        ("PNG"@, "PNG"@, 1024000i64, 860000i64, "oxipng-9.1"@),
        ("PNG"@, "PNG"@, 2048000i64, 1740000i64, "oxipng-9.1"@),
        ("PNG"@, "PNG"@, 512000i64, 430000i64, "oxipng-9.1"@),
        ("PNG"@, "PNG"@, 4096000i64, 3480000i64, "oxipng-9.1"@),
        ("JPEG"@, "JPEG"@, 800000i64, 640000i64, "mozjpeg"@),
        ("JPEG"@, "JPEG"@, 1500000i64, 1200000i64, "mozjpeg"@),
        ("JPEG"@, "JPEG"@, 600000i64, 480000i64, "mozjpeg"@),
        ("JPEG"@, "JPEG"@, 2000000i64, 1600000i64, "mozjpeg"@),
        ("PNG"@, "WebP"@, 50000i64, 15000i64, "v1.3.2"@),
        ("JPEG"@, "WebP"@, 75000i64, 60000i64, "v1.3.2"@),
        ("PNG"@, "WebP"@, 8192000i64, 1638400i64, "v1.3.2"@),
        ("JPEG"@, "WebP"@, 10240000i64, 7168000i64, "v1.3.2"@),
    ]
}

impl CompressionRecord {
    /// Creates a record, stamped with the current time.
    pub fn new(
        input_format: String,
        output_format: String,
        original_size: i64,
        compressed_size: i64,
        tool_version: Option<String>,
        source_type: String,
    ) -> (record: CompressionRecord)
        ensures
            record.id is None,
            record.input_format == input_format,
            record.output_format == output_format,
            record.original_size == original_size,
            record.compressed_size == compressed_size,
            record.tool_version == tool_version,
            record.source_type == source_type,
    {
        CompressionRecord {
            id: None,
            input_format,
            output_format,
            original_size,
            compressed_size,
            tool_version,
            source_type,
            timestamp: current_timestamp(),
        }
    }

    /// The saving of the record in millionths of a percent, rounded down;
    /// zero for an original size that is not positive.
    pub open spec fn spec_compression_percentage(self) -> int {
        if self.original_size <= 0 {
            0
        } else {
            (self.original_size - self.compressed_size) * 100_000_000 / (self.original_size as int)
        }
    }

    /// Calculates the saving of the record.
    pub fn compression_percentage(&self) -> (r: i128)
        ensures
            r == self.spec_compression_percentage(),
    {
        if self.original_size <= 0 {
            0
        } else {
            let reduction: i128 = self.original_size as i128 - self.compressed_size as i128;
            floor_div(reduction * 100_000_000, self.original_size as i128)
        }
    }

    /// The observation that a record stands for, or nothing for a record
    /// with a negative size. The observation is taken to be of the default
    /// quality.
    pub fn to_stat(&self) -> (r: Option<CompressionStat>)
        ensures
            (self.original_size < 0 || self.compressed_size < 0) ==> r is None,
            self.original_size >= 0 && self.compressed_size >= 0 ==> (r matches Some(stat)
                && records(
                stat,
                self.input_format,
                self.output_format,
                self.original_size as u64,
                self.compressed_size as u64,
                CompressionSettings {
                    quality: DEFAULT_QUALITY,
                    format: OutputFormat::WebP,
                    preserve_metadata: false,
                    optimize_alpha: true,
                },
            ) && stat.timestamp == self.timestamp),
    {
        if self.original_size < 0 || self.compressed_size < 0 {
            return None;
        }
        let settings = CompressionSettings::new(DEFAULT_QUALITY, OutputFormat::WebP);
        Some(
            create_stat_at(
                self.input_format.clone(),
                self.output_format.clone(),
                self.original_size as u64,
                self.compressed_size as u64,
                &settings,
                self.timestamp.clone(),
            ),
        )
    }
}

fn seed_record(
    input_format: &str,
    output_format: &str,
    original_size: i64,
    compressed_size: i64,
    tool_version: &str,
) -> (record: CompressionRecord)
    ensures
        seed_line(record) == (
            input_format@,
            output_format@,
            original_size,
            compressed_size,
            tool_version@,
        ),
        record.source_type@ == "seed"@,
{
    CompressionRecord::new(
        String::from_str(input_format),
        String::from_str(output_format),
        original_size,
        compressed_size,
        Some(String::from_str(tool_version)),
        String::from_str("seed"),
    )
}

/// The seed data.
pub fn seed_records() -> (data: SeedData)
    ensures
        data.compression_stats@.map_values(|record: CompressionRecord| seed_line(record))
            == seed_table(),
{
    let mut records: Vec<CompressionRecord> = Vec::new();
    records.push(seed_record("PNG", "WebP", 1024000, 256000, "v1.3.2"));
    records.push(seed_record("PNG", "WebP", 2048000, 460800, "v1.3.2"));
    records.push(seed_record("PNG", "WebP", 512000, 122880, "v1.3.2"));
    records.push(seed_record("PNG", "WebP", 4096000, 983040, "v1.3.2"));
    records.push(seed_record("PNG", "WebP", 256000, 61440, "v1.3.2"));
    records.push(seed_record("JPEG", "WebP", 800000, 560000, "v1.3.2"));
    records.push(seed_record("JPEG", "WebP", 1500000, 1050000, "v1.3.2"));
    records.push(seed_record("JPEG", "WebP", 600000, 420000, "v1.3.2"));
    records.push(seed_record("JPEG", "WebP", 2000000, 1400000, "v1.3.2"));
    records.push(seed_record("JPEG", "WebP", 300000, 210000, "v1.3.2"));
    records.push(seed_record("PNG", "PNG", 1024000, 860000, "oxipng-9.1"));
    records.push(seed_record("PNG", "PNG", 2048000, 1740000, "oxipng-9.1"));
    records.push(seed_record("PNG", "PNG", 512000, 430000, "oxipng-9.1"));
    records.push(seed_record("PNG", "PNG", 4096000, 3480000, "oxipng-9.1"));
    records.push(seed_record("JPEG", "JPEG", 800000, 640000, "mozjpeg"));
    records.push(seed_record("JPEG", "JPEG", 1500000, 1200000, "mozjpeg"));
    records.push(seed_record("JPEG", "JPEG", 600000, 480000, "mozjpeg"));
    records.push(seed_record("JPEG", "JPEG", 2000000, 1600000, "mozjpeg"));
    records.push(seed_record("PNG", "WebP", 50000, 15000, "v1.3.2"));
    records.push(seed_record("JPEG", "WebP", 75000, 60000, "v1.3.2"));
    records.push(seed_record("PNG", "WebP", 8192000, 1638400, "v1.3.2"));
    records.push(seed_record("JPEG", "WebP", 10240000, 7168000, "v1.3.2"));
    assert(records@.map_values(|record: CompressionRecord| seed_line(record)) =~= seed_table());
    SeedData { compression_stats: records }
}

/// What seeding a store did.
#[derive(Debug, Clone, Copy, PartialEq, Eq, Structural)]
pub enum SeedOutcome {
    /// The store held observations already, this many; nothing was added.
    Skipped(u32),
    /// This many observations were added.
    Seeded(u32),
}

/// Fills a store that is empty with the observations of seed data, one
/// after the other; a record that cannot be saved is passed over. A store
/// that holds observations already is left as it is. Fails only where the
/// store cannot be counted.
///
/// The answer is what `seed_outcome` gives for the count that the store
/// reports of itself and the number of observations that it then saved,
/// which is at most the number of records that stand for one.
pub fn seed_compression_database<S: StatsStore>(store: &mut S, data: &SeedData) -> (r: Result<
    SeedOutcome,
    StatsError,
>)
    ensures
        exists|existing: Result<u32, StatsError>, saved: u32|
            call_ensures(S::count_stats, (&*old(store),), existing) && saved <= usable_records(
                data.compression_stats@,
            ) && r == #[trigger] seed_outcome(existing, saved),
        !(r matches Ok(SeedOutcome::Seeded(_))) ==> *final(store) == *old(store),
        r matches Ok(SeedOutcome::Skipped(count)) ==> count > 0,
        r matches Ok(SeedOutcome::Seeded(count)) ==> count <= data.compression_stats@.len(),
{
    let existing = store.count_stats();
    let ghost reported = existing;
    match outcome_for_count(existing) {
        Some(outcome) => {
            assert(outcome == seed_outcome(reported, 0));
            return outcome;
        },
        None => {},
    }
    let mut inserted: u32 = 0;
    let mut i: usize = 0;
    assert(data.compression_stats@.subrange(0, 0) =~= Seq::<CompressionRecord>::empty());
    while i < data.compression_stats.len() && inserted < u32::MAX
        invariant
            i <= data.compression_stats@.len(),
            inserted <= usable_records(data.compression_stats@.subrange(0, i as int)),
        decreases data.compression_stats@.len() - i,
    {
        proof {
            lemma_usable_records_grow(data.compression_stats@, i as int);
        }
        match data.compression_stats[i].to_stat() {
            Some(stat) => {
                let answer = store.save_stat(stat);
                inserted = count_save(inserted, &answer);
            },
            None => {},
        }
        i += 1;
    }
    proof {
        lemma_usable_records_bounds(data.compression_stats@, i as int);
        assert(Ok::<SeedOutcome, StatsError>(SeedOutcome::Seeded(inserted)) == seed_outcome(
            reported,
            inserted,
        ));
    }
    Ok(SeedOutcome::Seeded(inserted))
}

/// Whether a record stands for an observation: neither of its sizes is
/// negative.
pub open spec fn is_usable(record: CompressionRecord) -> bool {
    record.original_size >= 0 && record.compressed_size >= 0
}

/// How many of the records stand for an observation.
pub open spec fn usable_records(records: Seq<CompressionRecord>) -> nat
    decreases records.len(),
{
    if records.len() == 0 {
        0
    } else if is_usable(records.last()) {
        usable_records(records.drop_last()) + 1
    } else {
        usable_records(records.drop_last())
    }
}

/// What seeding answers, given the count that the store reported and the
/// number of observations that it saved after that: the store's failure, or
/// its count where it held anything, or else the number saved.
pub open spec fn seed_outcome(existing: Result<u32, StatsError>, saved: u32) -> Result<
    SeedOutcome,
    StatsError,
> {
    match existing {
        Err(e) => Err(e),
        Ok(count) => if count > 0 {
            Ok(SeedOutcome::Skipped(count))
        } else {
            Ok(SeedOutcome::Seeded(saved))
        },
    }
}

/// What seeding answers on the store's count alone: its failure, or its
/// count where it holds anything. Nothing where the store is empty and is
/// to be filled.
pub fn outcome_for_count(existing: Result<u32, StatsError>) -> (r: Option<
    Result<SeedOutcome, StatsError>,
>)
    ensures
        match existing {
            Err(e) => r == Some(Err::<SeedOutcome, StatsError>(e)),
            Ok(count) => if count > 0 {
                r == Some(Ok::<SeedOutcome, StatsError>(SeedOutcome::Skipped(count)))
            } else {
                r is None
            },
        },
{
    match existing {
        Err(e) => Some(Err(e)),
        Ok(count) => if count > 0 {
            Some(Ok(SeedOutcome::Skipped(count)))
        } else {
            None
        },
    }
}

/// The number of observations saved, after the store answered one more
/// save: one more where it succeeded.
pub fn count_save(saved: u32, answer: &Result<i64, StatsError>) -> (r: u32)
    requires
        saved < u32::MAX,
    ensures
        r == if answer is Ok {
            saved + 1
        } else {
            saved as int
        },
{
    match answer {
        Ok(_) => saved + 1,
        Err(_) => saved,
    }
}

/// One more record adds at most one to the usable records before it, and
/// adds one exactly where it is usable.
proof fn lemma_usable_records_grow(records: Seq<CompressionRecord>, i: int)
    requires
        0 <= i < records.len(),
    ensures
        usable_records(records.subrange(0, i + 1)) == usable_records(records.subrange(0, i)) + (
        if is_usable(records[i]) {
            1nat
        } else {
            0nat
        }),
{
    assert(records.subrange(0, i + 1).drop_last() =~= records.subrange(0, i));
}

/// Among the first records no more are usable than there are of them, nor
/// than are usable among all.
proof fn lemma_usable_records_bounds(records: Seq<CompressionRecord>, i: int)
    requires
        0 <= i <= records.len(),
    ensures
        usable_records(records.subrange(0, i)) <= i,
        usable_records(records.subrange(0, i)) <= usable_records(records),
    decreases records.len() - i,
{
    if i < records.len() {
        lemma_usable_records_grow(records, i);
        lemma_usable_records_bounds(records, i + 1);
        lemma_usable_records_count(records.subrange(0, i));
    } else {
        assert(records.subrange(0, i) =~= records);
        lemma_usable_records_count(records);
    }
}

/// No more records are usable than there are.
proof fn lemma_usable_records_count(records: Seq<CompressionRecord>)
    ensures
        usable_records(records) <= records.len(),
    decreases records.len(),
{
    if records.len() > 0 {
        lemma_usable_records_count(records.drop_last());
    }
}

/// Quality of a request that names none.
pub const DEFAULT_QUALITY: u8 = 80;

/// The output format of a request: the format that the request names
/// ("webp", "png", "jpg" or "jpeg"); for "auto", the format of the input,
/// read from its extension ignoring letter case; WebP for anything else.
pub open spec fn requested_format(
    requested: Option<Seq<char>>,
    input_extension: Option<Seq<char>>,
) -> OutputFormat {
    match requested {
        Some(name) => if name == "webp"@ {
            OutputFormat::WebP
        } else if name == "png"@ {
            OutputFormat::Png
        } else if name == "jpg"@ || name == "jpeg"@ {
            OutputFormat::Jpeg
        } else if name == "auto"@ {
            match input_extension {
                Some(extension) => CompressionSettings::spec_preserve_lowercase(
                    lowercase(extension),
                ),
                None => CompressionSettings::spec_preserve_lowercase(lowercase("webp"@)),
            }
        } else {
            OutputFormat::WebP
        },
        None => OutputFormat::WebP,
    }
}

/// Decides the output format of a request.
pub fn resolve_output_format(requested: Option<&str>, input_extension: Option<&str>) -> (format:
    OutputFormat)
    ensures
        format == requested_format(
            match requested {
                Some(name) => Some(name@),
                None => None,
            },
            match input_extension {
                Some(extension) => Some(extension@),
                None => None,
            },
        ),
{
    match requested {
        Some(name) => {
            if str_eq(name, "webp") {
                OutputFormat::WebP
            } else if str_eq(name, "png") {
                OutputFormat::Png
            } else if str_eq(name, "jpg") || str_eq(name, "jpeg") {
                OutputFormat::Jpeg
            } else if str_eq(name, "auto") {
                match input_extension {
                    Some(extension) => CompressionSettings::preserve_input_format(extension),
                    None => CompressionSettings::preserve_input_format("webp"),
                }
            } else {
                CompressionSettings::optimal_format_for_input(name)
            }
        },
        None => OutputFormat::WebP,
    }
}

/// The settings of a request: its quality, or 80 where it names none,
/// clamped to 1..=100, and the given format.
pub fn request_settings(quality: Option<u8>, format: OutputFormat) -> (settings:
    CompressionSettings)
    ensures
        settings == (CompressionSettings {
            quality: clamp_quality(
                match quality {
                    Some(q) => q,
                    None => DEFAULT_QUALITY,
                },
            ),
            format,
            preserve_metadata: false,
            optimize_alpha: true,
        }),
        settings.spec_is_valid(),
{
    let quality = match quality {
        Some(q) => q,
        None => DEFAULT_QUALITY,
    };
    CompressionSettings::new(quality, format)
}

/// The file stem of a path, or "compressed" where it has none.
pub open spec fn stem_or_default(path: Seq<char>) -> Seq<char> {
    match path_file_stem(path) {
        Some(stem) => stem,
        None => "compressed"@,
    }
}

/// Where the output of a request goes. With a custom path that is a
/// directory: the input's file stem with the format's extension, in that
/// directory. With any other custom path: that path. Without one: beside
/// the input, under the input's file stem followed by "_compressed" and the
/// format's extension.
pub open spec fn planned_output(
    file_path: Seq<char>,
    custom_path: Option<Seq<char>>,
    custom_is_directory: bool,
    format: OutputFormat,
) -> Seq<char> {
    match custom_path {
        Some(custom) => if custom_is_directory {
            path_joined(custom, stem_or_default(file_path) + "."@ + format.spec_extension())
        } else {
            custom
        },
        None => path_joined(
            match path_parent(file_path) {
                Some(parent) => parent,
                None => ""@,
            },
            stem_or_default(file_path) + "_compressed."@ + format.spec_extension(),
        ),
    }
}

/// Plans where the output of a request goes. Whether a custom path is a
/// directory is for the caller to find out.
pub fn plan_output_path(
    file_path: &str,
    custom_path: Option<&str>,
    custom_is_directory: bool,
    format: OutputFormat,
) -> (path: String)
    ensures
        path@ == planned_output(
            file_path@,
            match custom_path {
                Some(custom) => Some(custom@),
                None => None,
            },
            custom_is_directory,
            format,
        ),
{
    let stem = match file_stem_of(file_path) {
        Some(stem) => stem,
        None => String::from_str("compressed"),
    };
    match custom_path {
        Some(custom) => {
            if custom_is_directory {
                let name = stem.concat(".").concat(format.extension());
                join_paths(custom, name.as_str())
            } else {
                String::from_str(custom)
            }
        },
        None => {
            let parent = match parent_of(file_path) {
                Some(parent) => parent,
                None => String::from_str(""),
            };
            let name = stem.concat("_compressed.").concat(format.extension());
            join_paths(parent.as_str(), name.as_str())
        },
    }
}

impl CompressionProgressEvent {
    /// The percentage and the remaining time that go with a stage: nothing
    /// done at the start and on an error, a quarter done and three seconds
    /// to go while processing, all done at completion.
    pub open spec fn stage_figures(stage: CompressionStage) -> (u32, Option<u64>) {
        match stage {
            CompressionStage::Started => (0u32, None::<u64>),
            CompressionStage::Processing => (25_000_000u32, Some(3000u64)),
            CompressionStage::Completed => (100_000_000u32, Some(0u64)),
            CompressionStage::Error => (0u32, None::<u64>),
        }
    }

    /// The event that reports a stage of the compression of a picture.
    pub fn at_stage(image_id: String, image_name: String, stage: CompressionStage) -> (event:
        CompressionProgressEvent)
        ensures
            event.image_id == image_id,
            event.image_name == image_name,
            event.stage == stage,
            (event.progress, event.estimated_time_remaining) == Self::stage_figures(stage),
    {
        let (progress, estimated_time_remaining) = match stage {
            CompressionStage::Started => (0, None),
            CompressionStage::Processing => (25_000_000, Some(3000)),
            CompressionStage::Completed => (100_000_000, Some(0)),
            CompressionStage::Error => (0, None),
        };
        CompressionProgressEvent { image_id, image_name, stage, progress, estimated_time_remaining }
    }
}

impl CompressImageResponse {
    /// The answer to a request that succeeded.
    pub fn succeeded(image_id: String, output: &CompressionOutput) -> (response:
        CompressImageResponse)
        ensures
            response.success,
            response.image_id == image_id,
            response.error is None,
            response.output_path matches Some(path) && path@ == output.output_path@,
            response.result matches Some(result) && result.original_size == output.original_size
                && result.compressed_size == output.compressed_size && result.savings_percent
                == output.savings_percent && result.output_path@ == output.output_path@,
    {
        CompressImageResponse {
            success: true,
            image_id,
            output_path: Some(output.output_path.clone()),
            result: Some(
                CompressionResult {
                    original_size: output.original_size,
                    compressed_size: output.compressed_size,
                    savings_percent: output.savings_percent,
                    output_path: output.output_path.clone(),
                },
            ),
            error: None,
        }
    }

    /// The answer to a request that failed at some step.
    pub fn failed(image_id: String, step: &str, reason: &str) -> (response: CompressImageResponse)
        ensures
            !response.success,
            response.image_id == image_id,
            response.output_path is None,
            response.result is None,
            response.error matches Some(text) && text@ == step@ + reason@,
    {
        CompressImageResponse {
            success: false,
            image_id,
            output_path: None,
            result: None,
            error: Some(join2(step, reason)),
        }
    }
}

/// The name under which a file is shown: the last part of its path, or
/// "unknown" where the path has none.
pub open spec fn shown_name(path: Seq<char>) -> Seq<char> {
    match path_file_name(path) {
        Some(name) => name,
        None => "unknown"@,
    }
}

/// Finds the name under which a file is shown.
pub fn shown_name_of(path: &str) -> (name: String)
    ensures
        name@ == shown_name(path@),
{
    match file_name_of(path) {
        Some(name) => name,
        None => String::from_str("unknown"),
    }
}

/// Notice that the shell gets before each file of a batch begins.
#[derive(Debug, Clone)]
pub struct BatchProgress {
    /// Position of the file in the batch, counted from one.
    pub current: usize,
    pub total: usize,
    pub file_name: String,
}

impl BatchProgress {
    /// The notice that goes out before the file at `index`, counted from
    /// zero, of a batch of `total` files.
    pub fn before_file(index: usize, total: usize, file_path: &str) -> (notice: BatchProgress)
        requires
            index < total,
        ensures
            notice.current == index + 1,
            notice.total == total,
            notice.file_name@ == shown_name(file_path@),
    {
        BatchProgress { current: index + 1, total, file_name: shown_name_of(file_path) }
    }
}

/// Counts the answers of a batch that report success.
pub open spec fn count_successes(results: Seq<CompressImageResponse>) -> nat
    decreases results.len(),
{
    if results.len() == 0 {
        0
    } else {
        count_successes(results.drop_last()) + if results.last().success {
            1nat
        } else {
            0nat
        }
    }
}

impl CompressBatchResponse {
    /// Sums a batch up: every answer is kept, in order, and counted as a
    /// success or a failure.
    pub fn summarize(results: Vec<CompressImageResponse>) -> (response: CompressBatchResponse)
        ensures
            response.results == results,
            response.total_files == results@.len(),
            response.successful == count_successes(results@),
            response.successful + response.failed == response.total_files,
    {
        let mut successful: usize = 0;
        let mut i: usize = 0;
        while i < results.len()
            invariant
                i <= results@.len(),
                successful == count_successes(results@.subrange(0, i as int)),
                successful <= i,
            decreases results@.len() - i,
        {
            proof {
                let next = results@.subrange(0, i + 1);
                assert(next.drop_last() =~= results@.subrange(0, i as int));
            }
            if results[i].success {
                successful += 1;
            }
            i += 1;
        }
        assert(results@.subrange(0, results@.len() as int) =~= results@);
        let total_files = results.len();
        CompressBatchResponse { total_files, successful, failed: total_files - successful, results }
    }
}

impl GetEstimationRequest {
    /// The query that the request stands for.
    pub fn into_query(self) -> (query: EstimationQuery)
        ensures
            query == (EstimationQuery {
                input_format: self.input_format,
                output_format: self.output_format,
                original_size: self.original_size,
                quality_setting: self.quality_setting,
                lossy_mode: self.lossy_mode,
            }),
    {
        EstimationQuery {
            input_format: self.input_format,
            output_format: self.output_format,
            original_size: self.original_size,
            quality_setting: self.quality_setting,
            lossy_mode: self.lossy_mode,
        }
    }
}

impl GetProgressEstimationRequest {
    /// The query that the request stands for.
    pub fn into_query(self) -> (query: ProgressEstimationQuery)
        ensures
            query == (ProgressEstimationQuery {
                input_format: self.input_format,
                output_format: self.output_format,
                original_size: self.original_size,
                quality_setting: self.quality_setting,
                lossy_mode: self.lossy_mode,
            }),
    {
        ProgressEstimationQuery {
            input_format: self.input_format,
            output_format: self.output_format,
            original_size: self.original_size,
            quality_setting: self.quality_setting,
            lossy_mode: self.lossy_mode,
        }
    }
}

impl RecordStatRequest {
    /// The observation that the request records: that of its formats and
    /// sizes under its quality, clamped to 1..=100.
    pub fn into_stat(self) -> (stat: CompressionStat)
        ensures
            records(
                stat,
                self.input_format,
                self.output_format,
                self.original_size,
                self.compressed_size,
                CompressionSettings {
                    quality: clamp_quality(self.quality_setting),
                    format: CompressionSettings::spec_preserve_lowercase(
                        lowercase(self.output_format@),
                    ),
                    preserve_metadata: false,
                    optimize_alpha: true,
                },
            ),
            stat.compression_time_ms is None,
    {
        let format = CompressionSettings::preserve_input_format(self.output_format.as_str());
        let settings = CompressionSettings::new(self.quality_setting, format);
        create_stat(
            self.input_format,
            self.output_format,
            self.original_size,
            self.compressed_size,
            &settings,
        )
    }
}

} // verus!
