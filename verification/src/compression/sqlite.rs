//! A statistics store kept in an SQLite database.
//!
//! What the database holds is outside the reach of any proof, so the calls
//! into it promise nothing. What is proved is what the store does with the
//! answers: which rows it asks for, and how an estimate is drawn from them.

use crate::compression::error::StatsError;
use crate::compression::stats::{CompressionStat, EstimationQuery, EstimationResult};
use crate::compression::progress::{ProgressEstimationQuery, TimingHistory};
use crate::compression::store::{
    as_estimation_query, window_ceiling, window_floor, average_of, average_saving_of, estimate_of, lemma_mean_bounds, estimation_from_samples, fallback_estimate,
    history_of, quality_window, summarize_timings, Retention, SavingsHistory, StatsStore,
    TimingStore,
};
use crate::fixed::ratio_micros;
use crate::text::{decimal, decimal_string};
use vstd::prelude::*;
use vstd::string::*;

verus! {

/// An open SQLite database, as the `rusqlite` crate holds it.
#[verifier::external_type_specification]
#[verifier::external_body]
pub struct ExConnection(::rusqlite::Connection);

/// The name under which SQLite opens a database in memory.
pub const MEMORY: &'static str = ":memory:";

/// Statement that creates the table of observations.
pub const CREATE_TABLE: &'static str =
    "CREATE TABLE IF NOT EXISTS compression_stats (\
    id INTEGER PRIMARY KEY AUTOINCREMENT, \
    input_format TEXT NOT NULL, \
    output_format TEXT NOT NULL, \
    input_size_range TEXT NOT NULL, \
    quality_setting INTEGER NOT NULL, \
    lossy_mode BOOLEAN NOT NULL, \
    size_reduction_percent INTEGER NOT NULL, \
    original_size INTEGER NOT NULL, \
    compressed_size INTEGER NOT NULL, \
    compression_time_ms INTEGER, \
    timestamp TEXT NOT NULL, \
    image_type TEXT)";

/// Statement that adds one observation.
pub const INSERT_STAT: &'static str =
    "INSERT INTO compression_stats (\
    input_format, output_format, input_size_range, quality_setting, \
    lossy_mode, size_reduction_percent, original_size, compressed_size, \
    compression_time_ms, timestamp, image_type) \
    VALUES (?1, ?2, ?3, ?4, ?5, ?6, ?7, ?8, ?9, ?10, ?11)";

/// Query for the savings of the observations that count for a query.
pub const SELECT_SAVINGS: &'static str =
    "SELECT size_reduction_percent FROM compression_stats \
    WHERE input_format = ?1 AND output_format = ?2 \
    AND quality_setting BETWEEN ?3 AND ?4 AND lossy_mode = ?5 ORDER BY id";

/// Query for the durations of the timed observations that count for a
/// query.
pub const SELECT_TIMINGS: &'static str =
    "SELECT compression_time_ms FROM compression_stats \
    WHERE input_format = ?1 AND output_format = ?2 \
    AND quality_setting BETWEEN ?3 AND ?4 AND lossy_mode = ?5 \
    AND compression_time_ms IS NOT NULL ORDER BY id";

/// Statement that removes all but the most recent observations, up to the
/// number written behind it.
pub const DELETE_OLD: &'static str =
    "DELETE FROM compression_stats WHERE id NOT IN (\
    SELECT id FROM compression_stats ORDER BY id DESC LIMIT ";

/// Statement that removes every observation.
pub const DELETE_ALL: &'static str = "DELETE FROM compression_stats";

/// Query for the number of observations.
pub const COUNT_ALL: &'static str = "SELECT COUNT(*) FROM compression_stats";

/// Calls `rusqlite::Connection::open` with a path, or with the name that
/// SQLite reads as a database in memory. Depends on the disk: nothing is
/// claimed of the result.
#[verifier::external_body]
fn open_database(path: &str) -> Result<::rusqlite::Connection, String> {
    ::rusqlite::Connection::open(path).map_err(|e| e.to_string())
}

/// Calls `rusqlite::Connection::execute` on a statement without parameters.
/// Depends on the database: nothing is claimed of the result.
#[verifier::external_body]
fn run_statement(connection: &::rusqlite::Connection, sql: &str) -> Result<usize, String> {
    connection.execute(sql, ()).map_err(|e| e.to_string())
}

/// Calls `rusqlite::Connection::execute` with the fields of an observation
/// as parameters, in the order of the table's columns after the id. Depends
/// on the database: nothing is claimed of the result.
#[verifier::external_body]
fn run_insert(connection: &::rusqlite::Connection, sql: &str, stat: &CompressionStat) -> Result<
    usize,
    String,
> {
    let fields = (
        &stat.input_format,
        &stat.output_format,
        &stat.input_size_range,
        stat.quality_setting,
        stat.lossy_mode,
        stat.size_reduction_percent,
        stat.original_size,
        stat.compressed_size,
        stat.compression_time_ms,
        &stat.timestamp,
        &stat.image_type,
    );
    connection.execute(sql, fields).map_err(|e| e.to_string())
}

/// Calls `rusqlite::Connection::last_insert_rowid`. Depends on the
/// database: nothing is claimed of the result.
#[verifier::external_body]
fn last_row_id(connection: &::rusqlite::Connection) -> i64 {
    connection.last_insert_rowid()
}

/// Calls `rusqlite::Connection::prepare` and `Statement::query_map` with
/// the query and the parameters of a selection, and collects the first
/// column of every row. Depends on the database: nothing is claimed of the
/// result.
#[verifier::external_body]
fn select_numbers(connection: &::rusqlite::Connection, selection: &Selection) -> Result<
    Vec<i64>,
    String,
> {
    let mut statement = connection.prepare(selection.sql).map_err(|e| e.to_string())?;
    let key = (
        &selection.input_format,
        &selection.output_format,
        selection.lowest_quality,
        selection.highest_quality,
        selection.lossy_mode,
    );
    let rows = statement.query_map(key, |row| row.get(0)).map_err(|e| e.to_string())?;
    rows.collect::<Result<Vec<i64>, ::rusqlite::Error>>().map_err(|e| e.to_string())
}

/// Calls `rusqlite::Connection::query_row` and reads the first column.
/// Depends on the database: nothing is claimed of the result.
#[verifier::external_body]
fn select_number(connection: &::rusqlite::Connection, sql: &str) -> Result<i64, String> {
    connection.query_row(sql, (), |row| row.get(0)).map_err(|e| e.to_string())
}

/// What the store asks the database for: a query, and the values of its
/// five parameters.
pub struct Selection {
    pub sql: &'static str,
    pub input_format: String,
    pub output_format: String,
    pub lowest_quality: u8,
    pub highest_quality: u8,
    pub lossy_mode: bool,
}

/// Whether a selection asks, with a given query, for the rows that count
/// for an estimation query: those of its formats and lossy flag, with a
/// quality inside its window.
pub open spec fn selects_for(selection: Selection, sql: &'static str, query: EstimationQuery)
    -> bool {
    &&& selection.sql@ == sql@
    &&& selection.input_format@ == query.input_format@
    &&& selection.output_format@ == query.output_format@
    &&& selection.lowest_quality == window_floor(query.quality_setting)
    &&& selection.highest_quality == window_ceiling(query.quality_setting)
    &&& selection.lossy_mode == query.lossy_mode
}

/// The selection of the savings that count for a query.
pub fn savings_selection(query: &EstimationQuery) -> (selection: Selection)
    ensures
        selects_for(selection, SELECT_SAVINGS, *query),
{
    let (lowest_quality, highest_quality) = quality_window(query.quality_setting);
    Selection {
        sql: SELECT_SAVINGS,
        input_format: query.input_format.clone(),
        output_format: query.output_format.clone(),
        lowest_quality,
        highest_quality,
        lossy_mode: query.lossy_mode,
    }
}

/// The selection of the durations that count for a query.
pub fn timings_selection(query: &ProgressEstimationQuery) -> (selection: Selection)
    ensures
        selects_for(selection, SELECT_TIMINGS, as_estimation_query(*query)),
{
    let (lowest_quality, highest_quality) = quality_window(query.quality_setting);
    Selection {
        sql: SELECT_TIMINGS,
        input_format: query.input_format.clone(),
        output_format: query.output_format.clone(),
        lowest_quality,
        highest_quality,
        lossy_mode: query.lossy_mode,
    }
}

/// The selection of the savings of a pair of formats at every quality, for
/// one value of the lossy flag.
pub fn pair_selection(input_format: &str, output_format: &str, lossy_mode: bool) -> (selection:
    Selection)
    ensures
        selection.sql@ == SELECT_SAVINGS@,
        selection.input_format@ == input_format@,
        selection.output_format@ == output_format@,
        selection.lowest_quality == 0,
        selection.highest_quality == 255,
        selection.lossy_mode == lossy_mode,
{
    Selection {
        sql: SELECT_SAVINGS,
        input_format: String::from_str(input_format),
        output_format: String::from_str(output_format),
        lowest_quality: 0,
        highest_quality: 255,
        lossy_mode,
    }
}

/// A failure of the database, as the store reports it.
pub fn database_error(reason: String) -> (e: StatsError)
    ensures
        e == StatsError::DatabaseError(reason),
{
    StatsError::DatabaseError(reason)
}

/// What the store answers after a statement whose count of rows it does
/// not need: success, or the failure of the database.
pub fn statement_outcome(answer: Result<usize, String>) -> (r: Result<(), StatsError>)
    ensures
        match answer {
            Ok(_) => r == Ok::<(), StatsError>(()),
            Err(reason) => r == Err::<(), StatsError>(StatsError::DatabaseError(reason)),
        },
{
    match answer {
        Ok(_) => Ok(()),
        Err(reason) => Err(database_error(reason)),
    }
}

/// The row id that the database reports after an insert, checked: ids of
/// rows are positive.
pub fn checked_row_id(id: i64) -> (r: Result<i64, StatsError>)
    ensures
        id > 0 ==> r == Ok::<i64, StatsError>(id),
        id <= 0 ==> r matches Err(StatsError::DatabaseError(_)),
{
    if id > 0 {
        Ok(id)
    } else {
        Err(StatsError::DatabaseError(String::from_str("no row id was assigned")))
    }
}

/// The count that the database reports, checked against the range of the
/// counter.
pub fn checked_count(count: i64) -> (r: Result<u32, StatsError>)
    ensures
        0 <= count <= u32::MAX ==> r == Ok::<u32, StatsError>(count as u32),
        !(0 <= count <= u32::MAX) ==> r matches Err(StatsError::DatabaseError(_)),
{
    if 0 <= count && count <= u32::MAX as i64 {
        Ok(count as u32)
    } else {
        Err(StatsError::DatabaseError(String::from_str("row count out of range")))
    }
}

/// The estimate for a query, given what the database answered when asked
/// for the savings of the observations that count: a failure of the
/// database is passed on, an answer with more rows than the counter holds
/// is refused, every other answer gives the estimate of its rows.
pub fn estimation_from_answer(answer: Result<Vec<i64>, String>, query: &EstimationQuery) -> (r:
    Result<EstimationResult, StatsError>)
    ensures
        match answer {
            Err(reason) => r == Err::<EstimationResult, StatsError>(
                StatsError::DatabaseError(reason),
            ),
            Ok(samples) => if samples@.len() > u32::MAX {
                r matches Err(StatsError::DatabaseError(_))
            } else if samples@.len() > 0 {
                r == Ok::<EstimationResult, StatsError>(estimate_of(samples@))
            } else {
                r == Ok::<EstimationResult, StatsError>(fallback_estimate(*query))
            },
        },
        r matches Ok(estimate) ==> estimate.confidence <= 1_000_000 && estimate.ratio
            == ratio_micros(estimate.percent as int),
{
    match answer {
        Err(reason) => Err(database_error(reason)),
        Ok(samples) => {
            if samples.len() > u32::MAX as usize {
                Err(StatsError::DatabaseError(String::from_str("row count out of range")))
            } else {
                Ok(estimation_from_samples(&samples, query))
            }
        },
    }
}

/// The durations among the numbers that a database answered: those that
/// are not negative, in their order.
pub open spec fn durations_among(numbers: Seq<i64>) -> Seq<u64>
    decreases numbers.len(),
{
    if numbers.len() == 0 {
        Seq::<u64>::empty()
    } else if numbers.last() >= 0 {
        durations_among(numbers.drop_last()).push(numbers.last() as u64)
    } else {
        durations_among(numbers.drop_last())
    }
}

/// Keeps the numbers that can be durations.
pub fn keep_durations(numbers: &Vec<i64>) -> (durations: Vec<u64>)
    ensures
        durations@ == durations_among(numbers@),
        durations@.len() <= numbers@.len(),
{
    let mut durations: Vec<u64> = Vec::new();
    let mut i: usize = 0;
    while i < numbers.len()
        invariant
            i <= numbers@.len(),
            durations@ == durations_among(numbers@.subrange(0, i as int)),
            durations@.len() <= i,
        decreases numbers@.len() - i,
    {
        proof {
            let next = numbers@.subrange(0, i + 1);
            assert(next.drop_last() =~= numbers@.subrange(0, i as int));
        }
        if numbers[i] >= 0 {
            durations.push(numbers[i] as u64);
        }
        i += 1;
    }
    assert(numbers@.subrange(0, numbers@.len() as int) =~= numbers@);
    durations
}

/// What the store knows of timings, given what the database answered when
/// asked for the durations that count: a failure of the database is passed
/// on, an answer with more rows than the counter holds is refused, every
/// other answer is summarized.
pub fn timing_from_answer(answer: Result<Vec<i64>, String>) -> (r: Result<
    Option<TimingHistory>,
    StatsError,
>)
    ensures
        match answer {
            Err(reason) => r == Err::<Option<TimingHistory>, StatsError>(
                StatsError::DatabaseError(reason),
            ),
            Ok(numbers) => if numbers@.len() > u32::MAX {
                r matches Err(StatsError::DatabaseError(_))
            } else {
                r == Ok::<Option<TimingHistory>, StatsError>(
                    history_of(durations_among(numbers@)),
                )
            },
        },
        r matches Ok(Some(history)) ==> history.sample_count > 0,
{
    match answer {
        Err(reason) => Err(database_error(reason)),
        Ok(numbers) => {
            if numbers.len() > u32::MAX as usize {
                Err(StatsError::DatabaseError(String::from_str("row count out of range")))
            } else {
                let durations = keep_durations(&numbers);
                Ok(summarize_timings(&durations))
            }
        },
    }
}

/// SQLite implementation of the stats store.
pub struct SqliteStatsStore {
    connection: ::rusqlite::Connection,
}

impl SqliteStatsStore {
    /// Opens the database at a path and creates the table if it is not
    /// there. A failure of the database comes back as `DatabaseError`.
    pub fn new(db_path: &str) -> (r: Result<SqliteStatsStore, StatsError>)
        ensures
            r matches Err(e) ==> e is DatabaseError,
    {
        match open_database(db_path) {
            Ok(connection) => Self::with_tables(connection),
            Err(reason) => Err(database_error(reason)),
        }
    }

    /// Opens a database in memory, with an empty table.
    pub fn in_memory() -> (r: Result<SqliteStatsStore, StatsError>)
        ensures
            r matches Err(e) ==> e is DatabaseError,
    {
        match open_database(MEMORY) {
            Ok(connection) => Self::with_tables(connection),
            Err(reason) => Err(database_error(reason)),
        }
    }

    /// The store on an open database, once its table is there.
    fn with_tables(connection: ::rusqlite::Connection) -> (r: Result<SqliteStatsStore, StatsError>)
        ensures
            r matches Ok(store) ==> store.connection == connection,
            r matches Err(e) ==> e is DatabaseError,
    {
        let store = SqliteStatsStore { connection };
        match store.init_tables() {
            Ok(()) => Ok(store),
            Err(e) => Err(e),
        }
    }

    /// Creates the table of observations where it is not there yet.
    fn init_tables(&self) -> (r: Result<(), StatsError>)
        ensures
            r matches Err(e) ==> e is DatabaseError,
    {
        let answer = run_statement(&self.connection, CREATE_TABLE);
        statement_outcome(answer)
    }
}

impl StatsStore for SqliteStatsStore {
    /// Inserts the observation and returns the id of its row. A failure of
    /// the database comes back as `DatabaseError`.
    fn save_stat(&mut self, stat: CompressionStat) -> (r: Result<i64, StatsError>)
        ensures
            r matches Ok(id) ==> id > 0,
            r matches Err(e) ==> e is DatabaseError,
    {
        match run_insert(&self.connection, INSERT_STAT, &stat) {
            Ok(_) => checked_row_id(last_row_id(&self.connection)),
            Err(reason) => Err(database_error(reason)),
        }
    }

    /// Asks the database for what `savings_selection` selects, and draws
    /// the estimate from the answer as `estimation_from_answer` says: an
    /// estimate is the heuristic one of the query, or the one that some
    /// savings give.
    fn get_estimation(&self, query: &EstimationQuery) -> (r: Result<EstimationResult, StatsError>)
        ensures
            r matches Err(e) ==> e is DatabaseError,
            r matches Ok(estimate) ==> estimate == fallback_estimate(*query) || exists|
                samples: Seq<i64>,
            |
                0 < samples.len() <= u32::MAX && estimate == #[trigger] estimate_of(samples),
    {
        let selection = savings_selection(query);
        let answer = select_numbers(&self.connection, &selection);
        let ghost rows = answer;
        let r = estimation_from_answer(answer, query);
        proof {
            if r is Ok && rows is Ok && rows->Ok_0@.len() > 0 {
                assert(r->Ok_0 == estimate_of(rows->Ok_0@));
            }
        }
        r
    }

    /// Deletes every row.
    fn clear_all(&mut self) -> (r: Result<(), StatsError>)
        ensures
            r matches Err(e) ==> e is DatabaseError,
    {
        let answer = run_statement(&self.connection, DELETE_ALL);
        statement_outcome(answer)
    }

    /// Counts the rows.
    fn count_stats(&self) -> (r: Result<u32, StatsError>)
        ensures
            r matches Err(e) ==> e is DatabaseError,
    {
        match select_number(&self.connection, COUNT_ALL) {
            Ok(count) => checked_count(count),
            Err(reason) => Err(database_error(reason)),
        }
    }
}

/// The mean of the savings in two answers of the database taken together:
/// a failure in either is passed on, more rows than the counter holds are
/// refused.
pub fn average_from_answers(
    lossy: Result<Vec<i64>, String>,
    lossless: Result<Vec<i64>, String>,
) -> (r: Result<i64, StatsError>)
    ensures
        match (lossy, lossless) {
            (Ok(first), Ok(second)) => if first@.len() + second@.len() > u32::MAX {
                r matches Err(StatsError::DatabaseError(_))
            } else {
                r == Ok::<i64, StatsError>(average_of(first@ + second@) as i64)
            },
            (Err(reason), _) => r == Err::<i64, StatsError>(StatsError::DatabaseError(reason)),
            (Ok(_), Err(reason)) => r == Err::<i64, StatsError>(
                StatsError::DatabaseError(reason),
            ),
        },
{
    match lossy {
        Err(reason) => Err(database_error(reason)),
        Ok(first) => match lossless {
            Err(reason) => Err(database_error(reason)),
            Ok(second) => {
                if first.len() as u128 + second.len() as u128 > u32::MAX as u128 {
                    Err(StatsError::DatabaseError(String::from_str("row count out of range")))
                } else {
                    let mut all = first;
                    let mut rest = second;
                    all.append(&mut rest);
                    Ok(average_saving_of(&all))
                }
            },
        },
    }
}

/// The number of rows that the database reports to have deleted, checked
/// against the range of the counter.
pub fn checked_deleted(deleted: usize) -> (r: Result<u32, StatsError>)
    ensures
        deleted <= u32::MAX ==> r == Ok::<u32, StatsError>(deleted as u32),
        deleted > u32::MAX ==> (r matches Err(StatsError::DatabaseError(_))),
{
    if deleted <= u32::MAX as usize {
        Ok(deleted as u32)
    } else {
        Err(StatsError::DatabaseError(String::from_str("row count out of range")))
    }
}

/// The statement that prunes the table to its most recent rows.
pub fn pruning_statement(max_records: u32) -> (sql: String)
    ensures
        sql@ == DELETE_OLD@ + decimal(max_records as nat) + ")"@,
{
    let number = decimal_string(max_records as u64);
    String::from_str(DELETE_OLD).concat(number.as_str()).concat(")")
}

impl Retention for SqliteStatsStore {
    /// Deletes all rows but those with the greatest ids, up to the
    /// maximum: runs the statement that `pruning_statement` writes.
    fn cleanup_old_records(&mut self, max_records: u32) -> (r: Result<u32, StatsError>)
        ensures
            r matches Err(e) ==> e is DatabaseError,
    {
        let statement = pruning_statement(max_records);
        match run_statement(&self.connection, statement.as_str()) {
            Ok(deleted) => checked_deleted(deleted),
            Err(reason) => Err(database_error(reason)),
        }
    }
}

impl SavingsHistory for SqliteStatsStore {
    /// Asks the database for what `pair_selection` selects, once for the
    /// lossy and once for the lossless rows, and gives the mean of both
    /// answers as `average_from_answers` says: an average is the mean of
    /// some savings, taken from two answers together.
    fn average_saving(&self, input_format: &str, output_format: &str) -> (r: Result<
        i64,
        StatsError,
    >)
        ensures
            r matches Err(e) ==> e is DatabaseError,
            r matches Ok(average) ==> exists|first: Seq<i64>, second: Seq<i64>|
                first.len() + second.len() <= u32::MAX && average == average_of(
                    #[trigger] (first + second),
                ),
    {
        let lossy = select_numbers(
            &self.connection,
            &pair_selection(input_format, output_format, true),
        );
        let lossless = select_numbers(
            &self.connection,
            &pair_selection(input_format, output_format, false),
        );
        let ghost answers = (lossy, lossless);
        let r = average_from_answers(lossy, lossless);
        proof {
            if r is Ok && answers.0 is Ok && answers.1 is Ok {
                let all = answers.0->Ok_0@ + answers.1->Ok_0@;
                if all.len() > 0 {
                    lemma_mean_bounds(all);
                }
                assert(r->Ok_0 == average_of(all));
            }
        }
        r
    }
}

impl TimingStore for SqliteStatsStore {
    /// Asks the database for what `timings_selection` selects, and
    /// summarizes the answer as `timing_from_answer` says: a history is the
    /// summary of the durations among some numbers.
    fn get_timing(&self, query: &ProgressEstimationQuery) -> (r: Result<
        Option<TimingHistory>,
        StatsError,
    >)
        ensures
            r matches Err(e) ==> e is DatabaseError,
            r matches Ok(history) ==> exists|numbers: Seq<i64>|
                numbers.len() <= u32::MAX && history == history_of(
                    #[trigger] durations_among(numbers),
                ),
    {
        let selection = timings_selection(query);
        let answer = select_numbers(&self.connection, &selection);
        let ghost rows = answer;
        let r = timing_from_answer(answer);
        proof {
            if r is Ok && rows is Ok {
                assert(r->Ok_0 == history_of(durations_among(rows->Ok_0@)));
            }
        }
        r
    }
}

} // verus!
