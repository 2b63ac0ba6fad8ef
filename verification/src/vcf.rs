//! The boundary to the VCF grammar engine.
//!
//! Header text and data lines are parsed by `noodles_vcf`. This module
//! declares the engine's types, names what its parsers return, and holds one
//! small function per engine call. The contracts of those functions are
//! taken on trust from the engine's source; everything else in the library
//! is proved from them.

use crate::genotypes::{sample_entries, Entry};
use crate::record::{optional_text, texts, FilterOutcome, FilterOutcomeView};
use crate::text::{count, lemma_split_pieces, split};
use noodles_vcf::header::info::Type;
use noodles_vcf::header::Number;
use vstd::prelude::*;

verus! {

#[verifier::external_type_specification]
#[verifier::external_body]
pub struct ExHeader(noodles_vcf::Header);

#[verifier::external_type_specification]
#[verifier::external_body]
pub struct ExHeaderParseError(noodles_vcf::header::ParseError);

#[verifier::external_type_specification]
#[verifier::external_body]
pub struct ExRecord(noodles_vcf::Record);

#[verifier::external_type_specification]
#[verifier::external_body]
pub struct ExRecordParseError(noodles_vcf::record::ParseError);

#[verifier::external_type_specification]
pub struct ExNumber(noodles_vcf::header::Number);

#[verifier::external_type_specification]
pub struct ExInfoType(noodles_vcf::header::info::Type);

/// One INFO declaration as the engine holds it.
pub struct DeclaredInfo {
    pub id: String,
    pub number: Number,
    pub ty: Type,
    pub description: String,
}

/// One FILTER declaration as the engine holds it.
pub struct DeclaredFilter {
    pub id: String,
    pub description: String,
}

/// A `DeclaredInfo` with its texts as character sequences.
pub struct InfoLine {
    pub id: Seq<char>,
    pub number: Number,
    pub ty: Type,
    pub description: Seq<char>,
}

/// A `DeclaredFilter` with its texts as character sequences.
pub struct FilterLine {
    pub id: Seq<char>,
    pub description: Seq<char>,
}

impl View for DeclaredInfo {
    type V = InfoLine;

    open spec fn view(&self) -> InfoLine {
        InfoLine { id: self.id@, number: self.number, ty: self.ty, description: self.description@ }
    }
}

impl View for DeclaredFilter {
    type V = FilterLine;

    open spec fn view(&self) -> FilterLine {
        FilterLine { id: self.id@, description: self.description@ }
    }
}

/// What a parsed header declares, in declaration order.
pub struct HeaderContents {
    pub major: u32,
    pub minor: u32,
    pub infos: Seq<InfoLine>,
    pub filters: Seq<FilterLine>,
}

/// The result of the engine's header parser on a header text.
pub uninterp spec fn header_outcome(text: Seq<char>) -> Result<
    noodles_vcf::Header,
    noodles_vcf::header::ParseError,
>;

/// What a parsed header holds.
pub uninterp spec fn header_contents(header: noodles_vcf::Header) -> HeaderContents;

/// The message of a header parse error.
pub uninterp spec fn header_error_text(error: noodles_vcf::header::ParseError) -> Seq<char>;

/// Calls `str::parse::<noodles_vcf::Header>`, the engine's header parser.
///
/// Trusted: the parser reads nothing but its argument, so its result is a
/// function of the text, which the contract names.
#[verifier::external_body]
pub(crate) fn parse_header_text(text: &str) -> (r: Result<
    noodles_vcf::Header,
    noodles_vcf::header::ParseError,
>)
    ensures
        r == header_outcome(text@),
{
    text.parse::<noodles_vcf::Header>()
}

/// Calls `to_string` on a header parse error of the engine.
///
/// Trusted: the message is a function of the error value.
#[verifier::external_body]
pub(crate) fn header_error_message(error: &noodles_vcf::header::ParseError) -> (text: String)
    ensures
        text@ == header_error_text(*error),
{
    error.to_string()
}

/// Calls `Header::file_format` and the two getters of its result.
///
/// Trusted: the pair is the version held by the header.
#[verifier::external_body]
pub(crate) fn header_version(header: &noodles_vcf::Header) -> (version: (u32, u32))
    ensures
        version.0 == header_contents(*header).major,
        version.1 == header_contents(*header).minor,
{
    let file_format = header.file_format();
    (file_format.major(), file_format.minor())
}

/// Calls `Header::infos` and copies each declaration out, in the order in
/// which the engine's map holds them.
///
/// Trusted: the list is the INFO part of what the header holds.
#[verifier::external_body]
pub(crate) fn header_infos(header: &noodles_vcf::Header) -> (infos: Vec<DeclaredInfo>)
    ensures
        infos@.map_values(|i: DeclaredInfo| i@) == header_contents(*header).infos,
{
    header.infos().iter().map(|(key, info)| DeclaredInfo {
        id: key.to_string(),
        number: info.number(),
        ty: info.ty(),
        description: info.description().to_string(),
    }).collect()
}

/// Calls `Header::filters` and copies each declaration out, in the order in
/// which the engine's map holds them.
///
/// Trusted: the list is the FILTER part of what the header holds.
#[verifier::external_body]
pub(crate) fn header_filters(header: &noodles_vcf::Header) -> (filters: Vec<DeclaredFilter>)
    ensures
        filters@.map_values(|f: DeclaredFilter| f@) == header_contents(*header).filters,
{
    header.filters().iter().map(|(key, filter)| DeclaredFilter {
        id: key.to_string(),
        description: filter.description().to_string(),
    }).collect()
}

/// What a parsed data line holds, column by column.
///
/// An INFO entry without a value in the line has none here. `samples` holds
/// the fields of each sample column, keyed by the FORMAT keys.
pub struct Columns {
    pub chromosome: Seq<char>,
    pub position: usize,
    pub ids: Seq<Seq<char>>,
    pub reference_bases: Seq<char>,
    pub alternate_bases: Seq<char>,
    pub quality_score: Option<Seq<char>>,
    pub filters: FilterOutcomeView,
    pub info: Seq<(Seq<char>, Option<Seq<char>>)>,
    pub format: Seq<Seq<char>>,
    pub samples: Seq<Seq<Entry>>,
}

/// The INFO entries of an executable list, as character sequences.
pub open spec fn info_entries(list: Seq<(String, Option<String>)>) -> Seq<
    (Seq<char>, Option<Seq<char>>),
> {
    list.map_values(|e: (String, Option<String>)| (e.0@, optional_text(e.1)))
}

/// The result of the engine's line parser on a data line, under a header.
pub uninterp spec fn line_outcome(line: Seq<char>, header: noodles_vcf::Header) -> Result<
    noodles_vcf::Record,
    noodles_vcf::record::ParseError,
>;

/// What a parsed data line holds.
pub uninterp spec fn record_columns(record: noodles_vcf::Record) -> Columns;

/// The message of a line parse error.
pub uninterp spec fn line_error_text(error: noodles_vcf::record::ParseError) -> Seq<char>;

/// The identifiers that an ID column spells: none for a lone dot, else its
/// pieces between semicolons.
pub open spec fn ids_of_column(column: Seq<char>) -> Seq<Seq<char>> {
    if column == "."@ {
        Seq::empty()
    } else {
        split(column, ';')
    }
}

/// An ID column spells no identifier exactly if it is a lone dot; any other
/// column spells one identifier more than it holds semicolons.
pub proof fn lemma_ids_count(column: Seq<char>)
    ensures
        ids_of_column(column).len() == 0 <==> column == "."@,
        column != "."@ ==> ids_of_column(column).len() == count(column, ';') + 1,
{
    lemma_split_pieces(column, ';');
}

/// The filter outcome that a FILTER column spells.
pub open spec fn filters_of_column(column: Seq<char>) -> FilterOutcomeView {
    if column == "."@ {
        FilterOutcomeView::NotTested
    } else if column == "PASS"@ {
        FilterOutcomeView::Pass
    } else {
        FilterOutcomeView::Fail(split(column, ';'))
    }
}

/// How the ID, QUAL and FILTER columns of an accepted line show in what
/// the engine holds for it.
pub open spec fn reads_line(line: Seq<char>, columns: Columns) -> bool {
    let fields = split(line, '\t');
    &&& fields.len() >= 8
    &&& columns.ids == ids_of_column(fields[2])
    &&& columns.quality_score is None <==> fields[5] == "."@
    &&& columns.filters == filters_of_column(fields[6])
}

/// Calls `Record::try_from_str`, the engine's parser for one data line.
///
/// Trusted: the parser reads nothing but the line and the header, so its
/// result is a function of the two, which the contract names. Of an accepted
/// line the contract further states what the parser's source shows for three
/// columns. The line has at least eight tab-separated fields. The third gives
/// no identifier if it is a dot, else one per piece between semicolons, in
/// order. The sixth gives no score exactly if it is a dot. The seventh gives
/// no outcome if it is a dot, a pass if it is `PASS`, else the failed filters,
/// one per piece between semicolons, in order.
#[verifier::external_body]
pub(crate) fn parse_line(line: &str, header: &noodles_vcf::Header) -> (r: Result<
    noodles_vcf::Record,
    noodles_vcf::record::ParseError,
>)
    ensures
        r == line_outcome(line@, *header),
        r matches Ok(record) ==> reads_line(line@, record_columns(record)),
{
    noodles_vcf::Record::try_from_str(line, header)
}

/// Calls `to_string` on a line parse error of the engine.
///
/// Trusted: the message is a function of the error value.
#[verifier::external_body]
pub(crate) fn line_error_message(error: &noodles_vcf::record::ParseError) -> (text: String)
    ensures
        text@ == line_error_text(*error),
{
    error.to_string()
}

/// Calls `Record::chromosome` and renders it. Trusted: this is the
/// chromosome that the record holds.
#[verifier::external_body]
pub(crate) fn record_chromosome(record: &noodles_vcf::Record) -> (text: String)
    ensures
        text@ == record_columns(*record).chromosome,
{
    record.chromosome().to_string()
}

/// Calls `Record::position`. Trusted: this is the position that the record
/// holds.
#[verifier::external_body]
pub(crate) fn record_position(record: &noodles_vcf::Record) -> (position: usize)
    ensures
        position == record_columns(*record).position,
{
    usize::from(record.position())
}

/// Calls `Record::ids` and renders each identifier. Trusted: these are the
/// identifiers that the record holds, in order.
#[verifier::external_body]
pub(crate) fn record_ids(record: &noodles_vcf::Record) -> (ids: Vec<String>)
    ensures
        texts(ids@) == record_columns(*record).ids,
{
    record.ids().iter().map(|id| id.to_string()).collect()
}

/// Calls `Record::reference_bases` and renders them. Trusted: these are the
/// reference bases that the record holds.
#[verifier::external_body]
pub(crate) fn record_reference_bases(record: &noodles_vcf::Record) -> (text: String)
    ensures
        text@ == record_columns(*record).reference_bases,
{
    record.reference_bases().to_string()
}

/// Calls `Record::alternate_bases` and renders them. Trusted: these are the
/// alternate bases that the record holds.
#[verifier::external_body]
pub(crate) fn record_alternate_bases(record: &noodles_vcf::Record) -> (text: String)
    ensures
        text@ == record_columns(*record).alternate_bases,
{
    record.alternate_bases().to_string()
}

/// Calls `Record::quality_score` and renders the score, if there is one.
/// Trusted: this is the score that the record holds.
#[verifier::external_body]
pub(crate) fn record_quality_score(record: &noodles_vcf::Record) -> (score: Option<String>)
    ensures
        optional_text(score) == record_columns(*record).quality_score,
{
    record.quality_score().map(|score| score.to_string())
}

/// Calls `Record::filters` and tells the engine's variants apart. Trusted:
/// this is the filter outcome that the record holds.
#[verifier::external_body]
pub(crate) fn record_filters(record: &noodles_vcf::Record) -> (filters: FilterOutcome)
    ensures
        filters@ == record_columns(*record).filters,
{
    match record.filters() {
        None => FilterOutcome::NotTested,
        Some(noodles_vcf::record::Filters::Pass) => FilterOutcome::Pass,
        Some(noodles_vcf::record::Filters::Fail(names)) => FilterOutcome::Fail(
            names.iter().map(|name| name.to_string()).collect(),
        ),
    }
}

/// Calls `Record::info` and renders key and value of each entry. Trusted:
/// these are the INFO entries that the record holds, in order.
#[verifier::external_body]
pub(crate) fn record_info(record: &noodles_vcf::Record) -> (info: Vec<(String, Option<String>)>)
    ensures
        info_entries(info@) == record_columns(*record).info,
{
    record.info().values().map(
        |field| (field.key().to_string(), field.value().map(|value| value.to_string())),
    ).collect()
}

/// Calls `Record::format` and renders each key. Trusted: these are the
/// FORMAT keys that the record holds, in order.
#[verifier::external_body]
pub(crate) fn record_format(record: &noodles_vcf::Record) -> (format: Vec<String>)
    ensures
        texts(format@) == record_columns(*record).format,
{
    record.format().iter().map(|key| key.to_string()).collect()
}

/// Calls `Record::genotypes` and renders key and value of every field of
/// every sample. Trusted: these are the samples that the record holds, in
/// column order, each with its fields in order.
#[verifier::external_body]
pub(crate) fn record_samples(record: &noodles_vcf::Record) -> (samples: Vec<
    Vec<(String, String)>,
>)
    ensures
        sample_entries(samples@) == record_columns(*record).samples,
{
    record.genotypes().iter().map(
        |sample| sample.iter().map(|(key, field)| (key.to_string(), field.to_string())).collect(),
    ).collect()
}

} // verus!
