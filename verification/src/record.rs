//! Data lines: the record model and the decoder that produces it.

use crate::genotypes::{concat_samples, entries, first_wins, flatten_genotypes, sample_entries, Entry};
use crate::header::VcfHeader;
use crate::text::split;
use crate::vcf::{
    line_error_message, line_error_text, line_outcome, parse_line, record_alternate_bases,
    record_chromosome, record_columns, record_filters, record_format, record_ids, record_info,
    record_position, record_quality_score, record_reference_bases, record_samples, reads_line,
    filters_of_column, ids_of_column, info_entries, lemma_ids_count, Columns,
};
use vstd::prelude::*;
use vstd::string::StringExecFns;

verus! {

/// The outcome of filtering for one record.
#[derive(Clone, Debug)]
pub enum FilterOutcome {
    /// No filter was applied.
    NotTested,
    /// Every filter passed.
    Pass,
    /// The named filters failed, in column order.
    Fail(Vec<String>),
}

/// A `FilterOutcome` with its names as character sequences.
pub enum FilterOutcomeView {
    NotTested,
    Pass,
    Fail(Seq<Seq<char>>),
}

/// The character sequences of a list of strings.
pub open spec fn texts(list: Seq<String>) -> Seq<Seq<char>> {
    list.map_values(|s: String| s@)
}

impl View for FilterOutcome {
    type V = FilterOutcomeView;

    open spec fn view(&self) -> FilterOutcomeView {
        match self {
            FilterOutcome::NotTested => FilterOutcomeView::NotTested,
            FilterOutcome::Pass => FilterOutcomeView::Pass,
            FilterOutcome::Fail(names) => FilterOutcomeView::Fail(texts(names@)),
        }
    }
}

/// One decoded data line.
///
/// `quality_score` holds the score as decimal text that reads back as the
/// very number of the column. `info` lists the INFO entries in column order.
/// `genotypes` is the flattened listing of all samples' fields.
#[derive(Clone, Debug)]
pub struct VcfRecord {
    pub chromosome: String,
    pub position: usize,
    pub ids: Vec<String>,
    pub reference_bases: String,
    pub alternate_bases: String,
    pub quality_score: Option<String>,
    pub filters: FilterOutcome,
    pub info: Vec<(String, String)>,
    pub format: Vec<String>,
    pub genotypes: Vec<(String, String)>,
}

/// A `VcfRecord` as contracts see it.
pub struct VcfRecordView {
    pub chromosome: Seq<char>,
    pub position: usize,
    pub ids: Seq<Seq<char>>,
    pub reference_bases: Seq<char>,
    pub alternate_bases: Seq<char>,
    pub quality_score: Option<Seq<char>>,
    pub filters: FilterOutcomeView,
    pub info: Seq<Entry>,
    pub format: Seq<Seq<char>>,
    pub genotypes: Seq<Entry>,
}

/// The character sequence of an optional string.
pub open spec fn optional_text(text: Option<String>) -> Option<Seq<char>> {
    match text {
        Some(s) => Some(s@),
        None => None,
    }
}

impl View for VcfRecord {
    type V = VcfRecordView;

    open spec fn view(&self) -> VcfRecordView {
        VcfRecordView {
            chromosome: self.chromosome@,
            position: self.position,
            ids: texts(self.ids@),
            reference_bases: self.reference_bases@,
            alternate_bases: self.alternate_bases@,
            quality_score: optional_text(self.quality_score),
            filters: self.filters@,
            info: entries(self.info@),
            format: texts(self.format@),
            genotypes: entries(self.genotypes@),
        }
    }
}

/// Raised when a data line does not match the grammar that the header and
/// its own FORMAT column call for.
#[derive(Clone, Debug)]
pub struct DecodeError {
    pub detail: String,
}

/// What the grammar engine holds for one accepted data line, as plain
/// values.
#[derive(Clone, Debug)]
pub struct RawRecord {
    pub chromosome: String,
    pub position: usize,
    pub ids: Vec<String>,
    pub reference_bases: String,
    pub alternate_bases: String,
    pub quality_score: Option<String>,
    pub filters: FilterOutcome,
    /// The INFO entries; one whose value the line leaves out has none.
    pub info: Vec<(String, Option<String>)>,
    pub format: Vec<String>,
    /// The fields of each sample column, keyed by the FORMAT keys.
    pub samples: Vec<Vec<(String, String)>>,
}

impl View for RawRecord {
    type V = Columns;

    open spec fn view(&self) -> Columns {
        Columns {
            chromosome: self.chromosome@,
            position: self.position,
            ids: texts(self.ids@),
            reference_bases: self.reference_bases@,
            alternate_bases: self.alternate_bases@,
            quality_score: optional_text(self.quality_score),
            filters: self.filters@,
            info: info_entries(self.info@),
            format: texts(self.format@),
            samples: sample_entries(self.samples@),
        }
    }
}

/// The INFO entry of a record: a left-out value reads as a dot.
pub open spec fn info_entry_of(entry: (Seq<char>, Option<Seq<char>>)) -> Entry {
    match entry.1 {
        Some(value) => (entry.0, value),
        None => (entry.0, "."@),
    }
}

/// The record that stands for what the grammar engine holds for a line.
pub open spec fn record_of(columns: Columns) -> VcfRecordView {
    VcfRecordView {
        chromosome: columns.chromosome,
        position: columns.position,
        ids: columns.ids,
        reference_bases: columns.reference_bases,
        alternate_bases: columns.alternate_bases,
        quality_score: columns.quality_score,
        filters: columns.filters,
        info: columns.info.map_values(|e: (Seq<char>, Option<Seq<char>>)| info_entry_of(e)),
        format: columns.format,
        genotypes: first_wins(concat_samples(columns.samples)),
    }
}

/// Gives every INFO entry a value text.
fn info_pairs(info: &Vec<(String, Option<String>)>) -> (pairs: Vec<(String, String)>)
    ensures
        entries(pairs@) == info_entries(info@).map_values(
            |e: (Seq<char>, Option<Seq<char>>)| info_entry_of(e),
        ),
{
    let mut pairs: Vec<(String, String)> = Vec::new();
    let mut i: usize = 0;
    while i < info.len()
        invariant
            i <= info.len(),
            pairs@.len() == i,
            forall|k: int|
                0 <= k < i ==> (#[trigger] pairs@[k].0@, pairs@[k].1@) == info_entry_of(
                    (info@[k].0@, optional_text(info@[k].1)),
                ),
        decreases info.len() - i,
    {
        let key = info[i].0.clone();
        let value = match &info[i].1 {
            Some(text) => text.clone(),
            None => String::from_str("."),
        };
        pairs.push((key, value));
        i += 1;
    }
    assert(entries(pairs@) =~= info_entries(info@).map_values(
        |e: (Seq<char>, Option<Seq<char>>)| info_entry_of(e),
    ));
    pairs
}

/// Builds the record of an accepted line from what the grammar engine holds
/// for it: every column is taken over, a left-out INFO value reads as a dot,
/// and the samples' fields are flattened, first sample first.
pub fn assemble(raw: RawRecord) -> (record: VcfRecord)
    ensures
        record@ == record_of(raw@),
{
    let info = info_pairs(&raw.info);
    let genotypes = flatten_genotypes(&raw.samples);
    VcfRecord {
        chromosome: raw.chromosome,
        position: raw.position,
        ids: raw.ids,
        reference_bases: raw.reference_bases,
        alternate_bases: raw.alternate_bases,
        quality_score: raw.quality_score,
        filters: raw.filters,
        info,
        format: raw.format,
        genotypes,
    }
}

/// Decodes one data line under a header.
///
/// The line is accepted exactly when the grammar engine accepts it. The
/// record is then built as `assemble` says from what the engine holds, and
/// its identifiers, score and filter outcome follow the line's third, sixth
/// and seventh column. A rejected line gives the engine's message.
pub fn decode_record(header: &VcfHeader, line: &str) -> (r: Result<VcfRecord, DecodeError>)
    ensures
        match line_outcome(line@, header.engine()) {
            Ok(parsed) => r is Ok && r->Ok_0@ == record_of(record_columns(parsed)),
            Err(error) => r is Err && r->Err_0.detail@ == line_error_text(error),
        },
        r matches Ok(record) ==> {
            let fields = split(line@, '\t');
            &&& fields.len() >= 8
            &&& record@.ids == ids_of_column(fields[2])
            &&& (record@.ids.len() == 0 <==> fields[2] == "."@)
            &&& (record@.quality_score is None <==> fields[5] == "."@)
            &&& record@.filters == filters_of_column(fields[6])
        },
{
    match parse_line(line, header.engine_ref()) {
        Ok(parsed) => {
            let raw = RawRecord {
                chromosome: record_chromosome(&parsed),
                position: record_position(&parsed),
                ids: record_ids(&parsed),
                reference_bases: record_reference_bases(&parsed),
                alternate_bases: record_alternate_bases(&parsed),
                quality_score: record_quality_score(&parsed),
                filters: record_filters(&parsed),
                info: record_info(&parsed),
                format: record_format(&parsed),
                samples: record_samples(&parsed),
            };
            proof {
                assert(raw@ == record_columns(parsed));
                lemma_ids_count(split(line@, '\t')[2]);
            }
            Ok(assemble(raw))
        },
        Err(error) => Err(DecodeError { detail: line_error_message(&error) }),
    }
}

} // verus!
