//! The persisted form of a chain's statistics: two tables, one with a single
//! row of summary counters and one with a row per recorded delta, and the
//! reading of a summary row back into its counters.
//!
//! The tables are built here as rows of text fields. Encoding them as CSV and
//! writing the files is the caller's part.

use vstd::prelude::*;
use vstd::string::*;

use crate::stats::{
    future_count, lemma_counts_partition, lemma_max_bounds, lemma_mean_bounds, lemma_wf_bounds,
    max_future, max_past, mean_delta, past_count, ChainStats, ChainStatsView,
};
use crate::text::{
    decimal, format_i64, format_u64, lemma_parse_signed_roundtrip, lemma_parse_unsigned_roundtrip,
    parse_i64, parse_signed, parse_u64, parse_unsigned,
};

verus! {

/// A table to persist: the name of its file and its records, the header
/// first.
#[derive(Debug)]
pub struct CsvTable {
    pub file_name: String,
    pub records: Vec<Vec<String>>,
}

/// Everything that is persisted for one chain. Both files are written anew
/// each time.
#[derive(Debug)]
pub struct CsvReport {
    pub stats: CsvTable,
    pub deltas: CsvTable,
}

impl CsvReport {
    /// `self` is what is persisted for the statistics `stats`: the file
    /// `<name>_stats.csv` with the header and the summary row, and the file
    /// `<name>_deltas.csv` with its header and one row per delta, oldest
    /// first.
    pub open spec fn is_for(&self, stats: ChainStatsView) -> bool {
        &&& self.stats.file_name@ == stats_file_name(stats.chain_name)
        &&& self.stats.records.deep_view() == seq![
            summary_header(),
            summary_row(summary_of(stats)),
        ]
        &&& self.deltas.file_name@ == deltas_file_name(stats.chain_name)
        &&& self.deltas.records.deep_view() == seq![delta_header()] + delta_rows(stats.deltas)
    }
}

/// One chain's share of a report: its summary counters for the log, and
/// its two tables to persist.
#[derive(Debug)]
pub struct ChainReport {
    pub summary: Summary,
    pub files: CsvReport,
}

impl ChainReport {
    /// `self` reports the statistics `stats`.
    pub open spec fn is_for(&self, stats: ChainStatsView) -> bool {
        self.summary@ == summary_of(stats) && self.files.is_for(stats)
    }
}

/// The summary counters of one chain.
#[derive(Debug, PartialEq, Eq)]
pub struct Summary {
    pub chain_name: String,
    pub total_blocks: u64,
    pub timestamp_past_blocks: u64,
    pub timestamp_future_blocks: u64,
    pub max_past_delta_ms: i64,
    pub max_future_delta_ms: i64,
    pub avg_time_delta_ms: i64,
}

/// What a `Summary` stands for.
pub struct SummaryView {
    pub chain_name: Seq<char>,
    pub total_blocks: u64,
    pub timestamp_past_blocks: u64,
    pub timestamp_future_blocks: u64,
    pub max_past_delta_ms: i64,
    pub max_future_delta_ms: i64,
    pub avg_time_delta_ms: i64,
}

impl View for Summary {
    type V = SummaryView;

    open spec fn view(&self) -> SummaryView {
        SummaryView {
            chain_name: self.chain_name@,
            total_blocks: self.total_blocks,
            timestamp_past_blocks: self.timestamp_past_blocks,
            timestamp_future_blocks: self.timestamp_future_blocks,
            max_past_delta_ms: self.max_past_delta_ms,
            max_future_delta_ms: self.max_future_delta_ms,
            avg_time_delta_ms: self.avg_time_delta_ms,
        }
    }
}

/// The summary counters of the statistics `stats`.
pub open spec fn summary_of(stats: ChainStatsView) -> SummaryView {
    SummaryView {
        chain_name: stats.chain_name,
        total_blocks: stats.deltas.len() as u64,
        timestamp_past_blocks: past_count(stats.deltas) as u64,
        timestamp_future_blocks: future_count(stats.deltas) as u64,
        max_past_delta_ms: max_past(stats.deltas) as i64,
        max_future_delta_ms: max_future(stats.deltas) as i64,
        avg_time_delta_ms: mean_delta(stats.deltas) as i64,
    }
}

/// Name of the file that holds the summary of the chain `chain_name`.
pub open spec fn stats_file_name(chain_name: Seq<char>) -> Seq<char> {
    chain_name + "_stats.csv"@
}

/// Name of the file that holds the deltas of the chain `chain_name`.
pub open spec fn deltas_file_name(chain_name: Seq<char>) -> Seq<char> {
    chain_name + "_deltas.csv"@
}

/// The header of the summary table.
pub open spec fn summary_header() -> Seq<Seq<char>> {
    seq![
        "Chain"@,
        "Total Blocks"@,
        "Past Timestamp Blocks"@,
        "Future Timestamp Blocks"@,
        "Max Past Delta (ms)"@,
        "Max Future Delta (ms)"@,
        "Avg Delta (ms)"@,
    ]
}

/// The row of the summary table: the chain's name, then the six counters in
/// decimal.
pub open spec fn summary_row(summary: SummaryView) -> Seq<Seq<char>> {
    seq![
        summary.chain_name,
        decimal(summary.total_blocks as int),
        decimal(summary.timestamp_past_blocks as int),
        decimal(summary.timestamp_future_blocks as int),
        decimal(summary.max_past_delta_ms as int),
        decimal(summary.max_future_delta_ms as int),
        decimal(summary.avg_time_delta_ms as int),
    ]
}

/// The header of the delta table.
pub open spec fn delta_header() -> Seq<Seq<char>> {
    seq!["Delta (ms)"@]
}

/// The rows of the delta table: one per delta, oldest first, each a single
/// field in decimal.
pub open spec fn delta_rows(deltas: Seq<i64>) -> Seq<Seq<Seq<char>>> {
    Seq::new(deltas.len(), |i: int| seq![decimal(deltas[i] as int)])
}

/// The summary that a row of seven fields holds: a name, then three
/// unsigned and three signed decimal numbers. Any other row holds none.
pub open spec fn read_summary_row(fields: Seq<Seq<char>>) -> Option<SummaryView> {
    if fields.len() == 7 && parse_unsigned(fields[1], 10) is Some && parse_unsigned(fields[2], 10)
        is Some && parse_unsigned(fields[3], 10) is Some && parse_signed(fields[4]) is Some
        && parse_signed(fields[5]) is Some && parse_signed(fields[6]) is Some {
        Some(
            SummaryView {
                chain_name: fields[0],
                total_blocks: parse_unsigned(fields[1], 10)->0,
                timestamp_past_blocks: parse_unsigned(fields[2], 10)->0,
                timestamp_future_blocks: parse_unsigned(fields[3], 10)->0,
                max_past_delta_ms: parse_signed(fields[4])->0,
                max_future_delta_ms: parse_signed(fields[5])->0,
                avg_time_delta_ms: parse_signed(fields[6])->0,
            },
        )
    } else {
        None
    }
}

/// A summary row read back holds the summary it was written from: the name
/// and all six counters come back as they were.
pub proof fn lemma_summary_roundtrip(summary: SummaryView)
    ensures
        read_summary_row(summary_row(summary)) == Some(summary),
{
    lemma_parse_unsigned_roundtrip(summary.total_blocks);
    lemma_parse_unsigned_roundtrip(summary.timestamp_past_blocks);
    lemma_parse_unsigned_roundtrip(summary.timestamp_future_blocks);
    lemma_parse_signed_roundtrip(summary.max_past_delta_ms);
    lemma_parse_signed_roundtrip(summary.max_future_delta_ms);
    lemma_parse_signed_roundtrip(summary.avg_time_delta_ms);
}

/// The summary row persisted for sound statistics, read back, gives the
/// counters of those statistics.
pub proof fn lemma_persisted_summary_roundtrip(stats: ChainStats)
    requires
        stats.wf(),
    ensures
        read_summary_row(summary_row(summary_of(stats@))) == Some(summary_of(stats@)),
        summary_of(stats@).total_blocks == stats@.deltas.len(),
        summary_of(stats@).timestamp_past_blocks == past_count(stats@.deltas),
        summary_of(stats@).timestamp_future_blocks == future_count(stats@.deltas),
        summary_of(stats@).max_past_delta_ms == max_past(stats@.deltas),
        summary_of(stats@).max_future_delta_ms == max_future(stats@.deltas),
        summary_of(stats@).avg_time_delta_ms == mean_delta(stats@.deltas),
{
    lemma_wf_bounds(stats);
    lemma_counts_partition(stats@.deltas);
    lemma_max_bounds(stats@.deltas);
    lemma_mean_bounds(stats@.deltas);
    lemma_summary_roundtrip(summary_of(stats@));
}

impl ChainStats {
    /// The summary counters as they stand.
    pub fn summary(&self) -> (summary: Summary)
        requires
            self.wf(),
        ensures
            summary@ == summary_of(self@),
    {
        proof {
            lemma_persisted_summary_roundtrip(*self);
        }
        Summary {
            chain_name: self.chain_name().clone(),
            total_blocks: self.total_blocks() as u64,
            timestamp_past_blocks: self.timestamp_past_blocks() as u64,
            timestamp_future_blocks: self.timestamp_future_blocks() as u64,
            max_past_delta_ms: self.max_past_delta_ms(),
            max_future_delta_ms: self.max_future_delta_ms(),
            avg_time_delta_ms: self.avg_time_delta_ms(),
        }
    }

    /// The two tables to persist for these statistics: `<name>_stats.csv`
    /// with the header and the summary row, and `<name>_deltas.csv` with its
    /// header and one row per delta, oldest first.
    pub fn write_to_csv(&self) -> (report: CsvReport)
        requires
            self.wf(),
        ensures
            report.is_for(self@),
    {
        let summary = self.summary();
        let mut stats_records: Vec<Vec<String>> = Vec::new();
        stats_records.push(summary_header_record());
        stats_records.push(summary.to_record());
        assert(stats_records.deep_view() =~= seq![
            summary_header(),
            summary_row(summary_of(self@)),
        ]);

        let deltas = self.deltas();
        let mut delta_records: Vec<Vec<String>> = Vec::new();
        let mut header: Vec<String> = Vec::new();
        header.push(String::from_str("Delta (ms)"));
        assert(header.deep_view() =~= delta_header());
        delta_records.push(header);
        let mut i: usize = 0;
        while i < deltas.len()
            invariant
                i <= deltas.len(),
                delta_records.deep_view() =~= seq![delta_header()] + delta_rows(
                    deltas@.take(i as int),
                ),
            decreases deltas.len() - i,
        {
            let mut record: Vec<String> = Vec::new();
            record.push(format_i64(deltas[i]));
            assert(record.deep_view() =~= seq![decimal(deltas[i as int] as int)]);
            let ghost before = delta_records.deep_view();
            delta_records.push(record);
            assert(delta_records.deep_view() =~= before.push(
                seq![decimal(deltas[i as int] as int)],
            ));
            assert(delta_rows(deltas@.take(i + 1)) =~= delta_rows(deltas@.take(i as int)).push(
                seq![decimal(deltas[i as int] as int)],
            ));
            i += 1;
        }
        assert(deltas@.take(i as int) =~= deltas@);

        let mut stats_name = self.chain_name().clone();
        stats_name.append("_stats.csv");
        let mut deltas_name = self.chain_name().clone();
        deltas_name.append("_deltas.csv");
        CsvReport {
            stats: CsvTable { file_name: stats_name, records: stats_records },
            deltas: CsvTable { file_name: deltas_name, records: delta_records },
        }
    }
}

impl ChainStats {
    /// What a report holds of these statistics.
    pub fn report(&self) -> (report: ChainReport)
        requires
            self.wf(),
        ensures
            report.is_for(self@),
    {
        ChainReport { summary: self.summary(), files: self.write_to_csv() }
    }
}

/// The header of the summary table, as a record.
fn summary_header_record() -> (record: Vec<String>)
    ensures
        record.deep_view() == summary_header(),
{
    let mut record: Vec<String> = Vec::new();
    record.push(String::from_str("Chain"));
    record.push(String::from_str("Total Blocks"));
    record.push(String::from_str("Past Timestamp Blocks"));
    record.push(String::from_str("Future Timestamp Blocks"));
    record.push(String::from_str("Max Past Delta (ms)"));
    record.push(String::from_str("Max Future Delta (ms)"));
    record.push(String::from_str("Avg Delta (ms)"));
    assert(record.deep_view() =~= summary_header());
    record
}

impl Summary {
    /// The row of the summary table that holds this summary.
    pub fn to_record(&self) -> (record: Vec<String>)
        ensures
            record.deep_view() == summary_row(self@),
    {
        let mut record: Vec<String> = Vec::new();
        record.push(self.chain_name.clone());
        record.push(format_u64(self.total_blocks));
        record.push(format_u64(self.timestamp_past_blocks));
        record.push(format_u64(self.timestamp_future_blocks));
        record.push(format_i64(self.max_past_delta_ms));
        record.push(format_i64(self.max_future_delta_ms));
        record.push(format_i64(self.avg_time_delta_ms));
        assert(record.deep_view() =~= summary_row(self@));
        record
    }
}

/// Reads a summary row back: seven fields, the name first, then three
/// unsigned and three signed decimal numbers.
pub fn parse_summary_row(fields: &Vec<String>) -> (summary: Option<Summary>)
    ensures
        summary is Some <==> read_summary_row(fields.deep_view()) is Some,
        summary matches Some(s) ==> Some(s@) == read_summary_row(fields.deep_view()),
{
    if fields.len() != 7 {
        return None;
    }
    proof {
        let view = fields.deep_view();
        assert(view[0] == fields[0]@);
        assert(view[1] == fields[1]@);
        assert(view[2] == fields[2]@);
        assert(view[3] == fields[3]@);
        assert(view[4] == fields[4]@);
        assert(view[5] == fields[5]@);
        assert(view[6] == fields[6]@);
    }
    let total = parse_u64(fields[1].as_str());
    let past = parse_u64(fields[2].as_str());
    let future = parse_u64(fields[3].as_str());
    let max_past = parse_i64(fields[4].as_str());
    let max_future = parse_i64(fields[5].as_str());
    let avg = parse_i64(fields[6].as_str());
    if total.is_none() || past.is_none() || future.is_none() || max_past.is_none()
        || max_future.is_none() || avg.is_none() {
        return None;
    }
    Some(
        Summary {
            chain_name: fields[0].clone(),
            total_blocks: total.unwrap(),
            timestamp_past_blocks: past.unwrap(),
            timestamp_future_blocks: future.unwrap(),
            max_past_delta_ms: max_past.unwrap(),
            max_future_delta_ms: max_future.unwrap(),
            avg_time_delta_ms: avg.unwrap(),
        },
    )
}

} // verus!
