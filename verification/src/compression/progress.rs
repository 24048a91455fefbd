//! How long a compression will take, and how far along it is.
//!
//! A duration is estimated from timings that were observed, or, where there
//! are none, from a table of defaults. A calculator then turns the time that
//! has passed into a percentage that rises smoothly and stops at a threshold
//! below 100, so that nothing is shown as done before it is.

use crate::compression::error::StatsError;
use crate::compression::stats::{get_size_range, spec_size_range};
use crate::compression::store::TimingStore;
use crate::text::{lowercase, str_eq, to_lowercase};
use vstd::prelude::*;
use vstd::string::*;

verus! {

/// Parameters of a request for a duration estimate.
#[derive(Debug, Clone)]
pub struct ProgressEstimationQuery {
    pub input_format: String,
    pub output_format: String,
    pub original_size: u64,
    pub quality_setting: u8,
    pub lossy_mode: bool,
}

/// An estimated duration.
#[derive(Debug, Clone, Copy, PartialEq, Eq, Structural)]
pub struct ProgressEstimation {
    pub estimated_duration_ms: u64,
    /// Trust in the estimate, in millionths.
    pub confidence: u32,
    pub sample_count: u32,
}

/// What a store knows of the timings that count for a query.
#[derive(Debug, Clone, Copy, PartialEq, Eq, Structural)]
pub struct TimingHistory {
    pub mean_duration_ms: u64,
    pub sample_count: u32,
}

/// One line of the table of default durations.
#[derive(Debug, Clone, Copy)]
pub struct TimingEntry {
    pub input_format: &'static str,
    pub output_format: &'static str,
    pub size_range: &'static str,
    pub duration_ms: u64,
}

/// Confidence of an estimate that rests on the table of defaults: 0.4.
pub const FALLBACK_CONFIDENCE: u32 = 400_000;

/// Confidence of an estimate that rests on observed timings: 0.8.
pub const HISTORY_CONFIDENCE: u32 = 800_000;

/// A line of the table as plain values.
pub open spec fn entry_view(entry: TimingEntry) -> (Seq<char>, Seq<char>, Seq<char>, u64) {
    (entry.input_format@, entry.output_format@, entry.size_range@, entry.duration_ms)
}

/// A table as plain values.
pub open spec fn table_view(table: Seq<TimingEntry>) -> Seq<(Seq<char>, Seq<char>, Seq<char>, u64)> {
    table.map_values(|entry: TimingEntry| entry_view(entry))
}

/// The table of default durations in milliseconds, by input format, output
/// format and size range.
pub open spec fn default_times() -> Seq<(Seq<char>, Seq<char>, Seq<char>, u64)> {
    seq![
        ("png"@, "webp"@, "small"@, 300u64),
        ("png"@, "webp"@, "medium"@, 1200u64),
        ("png"@, "webp"@, "large"@, 3000u64),
        ("png"@, "png"@, "small"@, 800u64),
        ("png"@, "png"@, "medium"@, 2500u64),
        ("png"@, "png"@, "large"@, 6000u64),
        ("jpeg"@, "webp"@, "small"@, 200u64),
        ("jpeg"@, "webp"@, "medium"@, 800u64),
        ("jpeg"@, "webp"@, "large"@, 2000u64),
        ("jpeg"@, "jpeg"@, "small"@, 150u64),
        ("jpeg"@, "jpeg"@, "medium"@, 500u64),
        ("jpeg"@, "jpeg"@, "large"@, 1200u64),
        ("webp"@, "webp"@, "small"@, 250u64),
        ("webp"@, "webp"@, "medium"@, 900u64),
        ("webp"@, "webp"@, "large"@, 2200u64),
    ]
}

fn entry(
    input_format: &'static str,
    output_format: &'static str,
    size_range: &'static str,
    duration_ms: u64,
) -> (e: TimingEntry)
    ensures
        entry_view(e) == (input_format@, output_format@, size_range@, duration_ms),
{
    TimingEntry { input_format, output_format, size_range, duration_ms }
}

/// Builds the table of default durations.
pub fn default_compression_times() -> (table: Vec<TimingEntry>)
    ensures
        table_view(table@) == default_times(),
{
    let mut table: Vec<TimingEntry> = Vec::new();
    table.push(entry("png", "webp", "small", 300));
    table.push(entry("png", "webp", "medium", 1200));
    table.push(entry("png", "webp", "large", 3000));
    table.push(entry("png", "png", "small", 800));
    table.push(entry("png", "png", "medium", 2500));
    table.push(entry("png", "png", "large", 6000));
    table.push(entry("jpeg", "webp", "small", 200));
    table.push(entry("jpeg", "webp", "medium", 800));
    table.push(entry("jpeg", "webp", "large", 2000));
    table.push(entry("jpeg", "jpeg", "small", 150));
    table.push(entry("jpeg", "jpeg", "medium", 500));
    table.push(entry("jpeg", "jpeg", "large", 1200));
    table.push(entry("webp", "webp", "small", 250));
    table.push(entry("webp", "webp", "medium", 900));
    table.push(entry("webp", "webp", "large", 2200));
    assert(table_view(table@) =~= default_times());
    table
}

/// The duration of the first line of a table with the given key, if there
/// is one.
pub open spec fn lookup(
    table: Seq<(Seq<char>, Seq<char>, Seq<char>, u64)>,
    input: Seq<char>,
    output: Seq<char>,
    range: Seq<char>,
) -> Option<u64>
    decreases table.len(),
{
    if table.len() == 0 {
        None
    } else if table[0].0 == input && table[0].1 == output && table[0].2 == range {
        Some(table[0].3)
    } else {
        lookup(table.drop_first(), input, output, range)
    }
}

/// Looks a key up in a table of durations.
pub fn lookup_duration(table: &Vec<TimingEntry>, input: &str, output: &str, range: &str) -> (r:
    Option<u64>)
    ensures
        r == lookup(table_view(table@), input@, output@, range@),
{
    let mut i: usize = 0;
    assert(table_view(table@).subrange(0, table@.len() as int) =~= table_view(table@));
    while i < table.len()
        invariant
            i <= table@.len(),
            lookup(table_view(table@), input@, output@, range@) == lookup(
                table_view(table@).subrange(i as int, table@.len() as int),
                input@,
                output@,
                range@,
            ),
        decreases table@.len() - i,
    {
        let ghost rest = table_view(table@).subrange(i as int, table@.len() as int);
        assert(rest[0] == entry_view(table@[i as int]));
        assert(rest.drop_first() =~= table_view(table@).subrange(i + 1, table@.len() as int));
        let line = &table[i];
        if str_eq(line.input_format, input) && str_eq(line.output_format, output) && str_eq(
            line.size_range,
            range,
        ) {
            return Some(line.duration_ms);
        }
        i += 1;
    }
    assert(table_view(table@).subrange(i as int, table@.len() as int).len() == 0);
    None
}

/// A lowercase format token in its canonical spelling: "jpg" is "jpeg".
pub open spec fn canonical(token: Seq<char>) -> Seq<char> {
    if token == "jpg"@ {
        "jpeg"@
    } else {
        token
    }
}

/// A format token as the table spells it: lowercase, and "jpg" as "jpeg".
pub open spec fn normalized(format: Seq<char>) -> Seq<char> {
    canonical(lowercase(format))
}

/// Gives a lowercase format token its canonical spelling.
pub fn canonical_token(token: String) -> (r: String)
    ensures
        r@ == canonical(token@),
{
    if str_eq(token.as_str(), "jpg") {
        String::from_str("jpeg")
    } else {
        token
    }
}

/// Normalizes a format token for the lookup in the table.
pub fn normalize_format(format: &str) -> (r: String)
    ensures
        r@ == normalized(format@),
{
    canonical_token(to_lowercase(format))
}

/// The duration that the size alone suggests, for a key that the table does
/// not hold.
pub open spec fn size_only_duration(size_bytes: u64) -> u64 {
    if size_bytes <= 1_000_000 {
        300
    } else if size_bytes <= 5_000_000 {
        1000
    } else {
        2500
    }
}

/// Whether the lossless penalty applies: the output is WebP, the input is
/// not, and the request is not lossy.
pub open spec fn lossless_penalty_applies(input: Seq<char>, output: Seq<char>, lossy: bool) -> bool {
    output == "webp"@ && input != "webp"@ && !lossy
}

/// A duration lengthened by a quarter, rounded down.
pub open spec fn with_penalty(duration_ms: u64) -> int {
    duration_ms * 5 / 4
}

/// The default duration for normalized formats: the table's entry,
/// lengthened by a quarter where the lossless penalty applies (a result
/// beyond the range of `u64` saturates); the duration that the size alone
/// suggests where the table has no entry.
pub open spec fn default_duration(
    input: Seq<char>,
    output: Seq<char>,
    size_bytes: u64,
    lossy: bool,
) -> int {
    match lookup(default_times(), input, output, spec_size_range(size_bytes)) {
        Some(duration) => if lossless_penalty_applies(input, output, lossy) {
            if with_penalty(duration) > u64::MAX {
                u64::MAX as int
            } else {
                with_penalty(duration)
            }
        } else {
            duration as int
        },
        None => size_only_duration(size_bytes) as int,
    }
}

/// Computes the default duration for normalized formats.
pub fn default_duration_for(input: &str, output: &str, size_bytes: u64, lossy: bool) -> (d: u64)
    ensures
        d == default_duration(input@, output@, size_bytes, lossy),
{
    let table = default_compression_times();
    let range = get_size_range(size_bytes);
    match lookup_duration(&table, input, output, range.as_str()) {
        Some(duration) => {
            if str_eq(output, "webp") && !str_eq(input, "webp") && !lossy {
                let longer: u128 = duration as u128 * 5 / 4;
                if longer > u64::MAX as u128 {
                    u64::MAX
                } else {
                    longer as u64
                }
            } else {
                duration
            }
        },
        None => {
            if size_bytes <= 1_000_000 {
                300
            } else if size_bytes <= 5_000_000 {
                1000
            } else {
                2500
            }
        },
    }
}

/// The estimate that rests on the defaults alone.
pub open spec fn fallback_duration_estimate(query: ProgressEstimationQuery) -> ProgressEstimation {
    ProgressEstimation {
        estimated_duration_ms: default_duration(
            normalized(query.input_format@),
            normalized(query.output_format@),
            query.original_size,
            query.lossy_mode,
        ) as u64,
        confidence: FALLBACK_CONFIDENCE,
        sample_count: 0,
    }
}

/// The estimate for a query, given what the store answered when asked for
/// timings: observed timings give their mean, with the higher confidence;
/// no timings, or a failure of the store, give the default duration, with
/// the lower confidence and a sample count of zero.
pub open spec fn duration_estimate(
    query: ProgressEstimationQuery,
    history: Result<Option<TimingHistory>, StatsError>,
) -> ProgressEstimation {
    match history {
        Ok(Some(timings)) => if timings.sample_count > 0 {
            ProgressEstimation {
                estimated_duration_ms: timings.mean_duration_ms,
                confidence: HISTORY_CONFIDENCE,
                sample_count: timings.sample_count,
            }
        } else {
            fallback_duration_estimate(query)
        },
        _ => fallback_duration_estimate(query),
    }
}

/// Estimates durations of compressions.
#[derive(Debug, Clone, Copy)]
pub struct ProgressEstimationService;

impl ProgressEstimationService {
    /// Creates the service.
    pub fn new() -> ProgressEstimationService {
        ProgressEstimationService
    }

    /// Estimates from the table of defaults alone.
    pub fn estimate_from_defaults(&self, query: &ProgressEstimationQuery) -> (r:
        ProgressEstimation)
        ensures
            r == fallback_duration_estimate(*query),
            r.confidence == FALLBACK_CONFIDENCE,
            r.sample_count == 0,
    {
        let input = normalize_format(query.input_format.as_str());
        let output = normalize_format(query.output_format.as_str());
        ProgressEstimation {
            estimated_duration_ms: default_duration_for(
                input.as_str(),
                output.as_str(),
                query.original_size,
                query.lossy_mode,
            ),
            confidence: FALLBACK_CONFIDENCE,
            sample_count: 0,
        }
    }

    /// Estimates the duration for a query from what a store answered when
    /// asked for timings. A failure of the store is never passed on: it
    /// counts as no data.
    pub fn estimate_duration(
        &self,
        query: &ProgressEstimationQuery,
        history: Result<Option<TimingHistory>, StatsError>,
    ) -> (r: ProgressEstimation)
        ensures
            r == duration_estimate(*query, history),
            r.sample_count == 0 ==> r.confidence == FALLBACK_CONFIDENCE,
            r.sample_count > 0 ==> r.confidence == HISTORY_CONFIDENCE,
    {
        match history {
            Ok(Some(timings)) => {
                if timings.sample_count > 0 {
                    ProgressEstimation {
                        estimated_duration_ms: timings.mean_duration_ms,
                        confidence: HISTORY_CONFIDENCE,
                        sample_count: timings.sample_count,
                    }
                } else {
                    self.estimate_from_defaults(query)
                }
            },
            _ => self.estimate_from_defaults(query),
        }
    }

    /// Estimates the duration for a query with the help of a store: asks
    /// the store for timings and estimates from its answer. Where the store
    /// has nothing to say, or fails, the estimate is that of the defaults.
    pub fn estimate_duration_with<S: TimingStore>(
        &self,
        query: &ProgressEstimationQuery,
        store: &S,
    ) -> (r: ProgressEstimation)
        ensures
            exists|history: Result<Option<TimingHistory>, StatsError>|
                call_ensures(S::get_timing, (store, query), history) && r
                    == #[trigger] duration_estimate(*query, history),
            r.sample_count == 0 ==> r == fallback_duration_estimate(*query),
            r.sample_count > 0 ==> r.confidence == HISTORY_CONFIDENCE,
    {
        let history = store.get_timing(query);
        let r = self.estimate_duration(query, history);
        assert(r == duration_estimate(*query, history));
        r
    }
}

/// The default duration for PNG to WebP at a small size, with loss, is the
/// table's first entry: 300 milliseconds.
pub proof fn lemma_default_png_to_webp_small(size_bytes: u64)
    requires
        size_bytes <= 1_000_000,
    ensures
        default_duration("png"@, "webp"@, size_bytes, true) == 300,
        lookup(default_times(), "png"@, "webp"@, "small"@) == Some(300u64),
{
    assert(default_times()[0] == ("png"@, "webp"@, "small"@, 300u64));
}

/// The names of formats and size ranges in the table differ from each
/// other.
pub proof fn lemma_table_names_differ()
    ensures
        "png"@ != "webp"@,
        "png"@ != "jpeg"@,
        "webp"@ != "jpeg"@,
        "small"@ != "medium"@,
        "small"@ != "large"@,
        "medium"@ != "large"@,
{
    reveal_strlit("png");
    reveal_strlit("webp");
    reveal_strlit("jpeg");
    reveal_strlit("small");
    reveal_strlit("medium");
    reveal_strlit("large");
    assert("png"@.len() == 3 && "webp"@.len() == 4 && "jpeg"@.len() == 4);
    assert("webp"@[0] == 'w' && "jpeg"@[0] == 'j');
    assert("small"@.len() == 5 && "medium"@.len() == 6 && "large"@.len() == 5);
    assert("small"@[0] == 's' && "large"@[0] == 'l');
}

/// A lookup finds the duration of the first line with the key.
pub proof fn lemma_lookup_first_match(
    table: Seq<(Seq<char>, Seq<char>, Seq<char>, u64)>,
    input: Seq<char>,
    output: Seq<char>,
    range: Seq<char>,
    at: int,
)
    requires
        0 <= at < table.len(),
        table[at].0 == input && table[at].1 == output && table[at].2 == range,
        forall|j: int|
            0 <= j < at ==> !(#[trigger] table[j].0 == input && table[j].1 == output
                && table[j].2 == range),
    ensures
        lookup(table, input, output, range) == Some(table[at].3),
    decreases at,
{
    if at > 0 {
        assert(!(table[0].0 == input && table[0].1 == output && table[0].2 == range));
        let rest = table.drop_first();
        assert forall|j: int| 0 <= j < at - 1 implies !(#[trigger] rest[j].0 == input
            && rest[j].1 == output && rest[j].2 == range) by {
            assert(rest[j] == table[j + 1]);
        }
        lemma_lookup_first_match(rest, input, output, range, at - 1);
    }
}

/// In every size range the table keeps the order of its durations: PNG to
/// PNG takes longer than PNG to WebP, and JPEG to JPEG is the fastest of
/// all.
pub proof fn lemma_table_order(range: Seq<char>)
    requires
        range == "small"@ || range == "medium"@ || range == "large"@,
    ensures
        lookup(default_times(), "png"@, "png"@, range) is Some,
        lookup(default_times(), "png"@, "webp"@, range) is Some,
        lookup(default_times(), "jpeg"@, "jpeg"@, range) is Some,
        lookup(default_times(), "png"@, "png"@, range)->0 > lookup(
            default_times(),
            "png"@,
            "webp"@,
            range,
        )->0,
        forall|input: Seq<char>, output: Seq<char>|
            lookup(default_times(), input, output, range) is Some ==> lookup(
                default_times(),
                "jpeg"@,
                "jpeg"@,
                range,
            )->0 <= (#[trigger] lookup(default_times(), input, output, range))->0,
{
    lemma_table_names_differ();
    let table = default_times();
    let offset: int = if range == "small"@ {
        0
    } else if range == "medium"@ {
        1
    } else {
        2
    };
    assert(table.len() == 15);
    assert(table[0].2 == "small"@ && table[1].2 == "medium"@ && table[2].2 == "large"@);
    assert(table[3].2 == "small"@ && table[4].2 == "medium"@ && table[5].2 == "large"@);
    assert(table[6].2 == "small"@ && table[7].2 == "medium"@ && table[8].2 == "large"@);
    assert(table[9].2 == "small"@ && table[10].2 == "medium"@ && table[11].2 == "large"@);
    assert(table[12].2 == "small"@ && table[13].2 == "medium"@ && table[14].2 == "large"@);
    assert(table[0].0 == "png"@ && table[1].0 == "png"@ && table[2].0 == "png"@);
    assert(table[3].0 == "png"@ && table[4].0 == "png"@ && table[5].0 == "png"@);
    assert(table[6].0 == "jpeg"@ && table[7].0 == "jpeg"@ && table[8].0 == "jpeg"@);
    assert(table[0].1 == "webp"@ && table[1].1 == "webp"@ && table[2].1 == "webp"@);
    assert(table[3].1 == "png"@ && table[4].1 == "png"@ && table[5].1 == "png"@);
    assert(table[6].1 == "webp"@ && table[7].1 == "webp"@ && table[8].1 == "webp"@);
    assert(table[9].0 == "jpeg"@ && table[10].0 == "jpeg"@ && table[11].0 == "jpeg"@);
    assert(table[9].1 == "jpeg"@ && table[10].1 == "jpeg"@ && table[11].1 == "jpeg"@);
    lemma_lookup_first_match(table, "png"@, "webp"@, range, offset);
    lemma_lookup_first_match(table, "png"@, "png"@, range, 3 + offset);
    lemma_lookup_first_match(table, "jpeg"@, "jpeg"@, range, 9 + offset);
    assert(table[0].3 == 300 && table[1].3 == 1200 && table[2].3 == 3000);
    assert(table[3].3 == 800 && table[4].3 == 2500 && table[5].3 == 6000);
    assert(table[6].3 == 200 && table[7].3 == 800 && table[8].3 == 2000);
    assert(table[9].3 == 150 && table[10].3 == 500 && table[11].3 == 1200);
    assert(table[12].3 == 250 && table[13].3 == 900 && table[14].3 == 2200);
    let fastest = table[9 + offset].3;
    assert forall|input: Seq<char>, output: Seq<char>|
        lookup(default_times(), input, output, range) is Some implies fastest <= (
    #[trigger] lookup(default_times(), input, output, range))->0 by {
        lemma_lookup_is_an_entry(table, input, output, range);
        let duration = lookup(table, input, output, range)->0;
        let i = choose|i: int|
            0 <= i < table.len() && #[trigger] table[i] == (input, output, range, duration);
        assert(table[i].2 == range && table[i].3 == duration);
    }
}

/// What a lookup finds is the duration of a line of the table with the key
/// looked up.
pub proof fn lemma_lookup_is_an_entry(
    table: Seq<(Seq<char>, Seq<char>, Seq<char>, u64)>,
    input: Seq<char>,
    output: Seq<char>,
    range: Seq<char>,
)
    ensures
        lookup(table, input, output, range) matches Some(duration) ==> (exists|i: int|
            0 <= i < table.len() && #[trigger] table[i] == (input, output, range, duration)),
    decreases table.len(),
{
    if table.len() > 0 && !(table[0].0 == input && table[0].1 == output && table[0].2 == range) {
        lemma_lookup_is_an_entry(table.drop_first(), input, output, range);
        match lookup(table.drop_first(), input, output, range) {
            Some(duration) => {
                let i = choose|i: int|
                    0 <= i < table.drop_first().len() && #[trigger] table.drop_first()[i] == (
                        input,
                        output,
                        range,
                        duration,
                    );
                assert(table[i + 1] == (input, output, range, duration));
            },
            None => {},
        }
    } else if table.len() > 0 {
        assert(table[0] == (input, output, range, table[0].3));
    }
}

/// An estimate that rests on the defaults is trusted less than one that
/// rests on observed timings.
pub proof fn lemma_fallback_trusted_less(
    query: ProgressEstimationQuery,
    no_data: Result<Option<TimingHistory>, StatsError>,
    data: Result<Option<TimingHistory>, StatsError>,
)
    requires
        duration_estimate(query, no_data).sample_count == 0,
        duration_estimate(query, data).sample_count > 0,
    ensures
        duration_estimate(query, no_data).confidence < duration_estimate(query, data).confidence,
        duration_estimate(query, no_data).confidence < 500_000,
{
}

} // verus!
