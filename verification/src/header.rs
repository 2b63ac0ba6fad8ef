//! The typed model of a VCF header: file format version, INFO declarations
//! and FILTER declarations.

use crate::vcf::{
    header_contents, header_error_message, header_error_text, header_filters, header_infos,
    header_outcome, header_version, parse_header_text, DeclaredFilter, DeclaredInfo, FilterLine,
    HeaderContents, InfoLine,
};
use noodles_vcf::header::info::Type;
use noodles_vcf::header::Number;
use vstd::prelude::*;
use vstd::string::StringExecFns;

verus! {

/// How many values an INFO field carries.
#[derive(Clone, Copy, Debug, PartialEq, Eq, Structural)]
pub enum NumberKind {
    /// Exactly this many values.
    FixedCount(usize),
    /// One value per alternate allele.
    AllAlternateAlleles,
    /// One value per allele, the reference included.
    RefPlusAlternateAlleles,
    /// One value per possible genotype.
    OnePerGenotype,
    /// The count is not declared.
    Unknown,
}

/// The type of the values of an INFO field.
#[derive(Clone, Copy, Debug, PartialEq, Eq, Structural)]
pub enum ValueType {
    Integer,
    Float,
    Flag,
    Character,
    String,
}

/// The version pair of the `##fileformat` line.
#[derive(Clone, Copy, Debug, PartialEq, Eq, Structural)]
pub struct FileFormat {
    pub major: u32,
    pub minor: u32,
}

/// One `##INFO` declaration.
#[derive(Clone, Debug)]
pub struct InfoDef {
    pub id: String,
    pub number: NumberKind,
    pub value_type: ValueType,
    pub description: String,
}

/// One `##FILTER` declaration.
#[derive(Clone, Debug)]
pub struct FilterDef {
    pub id: String,
    pub description: String,
}

/// An `InfoDef` with its texts as character sequences.
pub struct InfoDefView {
    pub id: Seq<char>,
    pub number: NumberKind,
    pub value_type: ValueType,
    pub description: Seq<char>,
}

/// A `FilterDef` with its texts as character sequences.
pub struct FilterDefView {
    pub id: Seq<char>,
    pub description: Seq<char>,
}

impl View for InfoDef {
    type V = InfoDefView;

    open spec fn view(&self) -> InfoDefView {
        InfoDefView {
            id: self.id@,
            number: self.number,
            value_type: self.value_type,
            description: self.description@,
        }
    }
}

impl View for FilterDef {
    type V = FilterDefView;

    open spec fn view(&self) -> FilterDefView {
        FilterDefView { id: self.id@, description: self.description@ }
    }
}

/// The count kind that stands for a `Number` of the grammar engine.
pub open spec fn number_kind_of(number: Number) -> NumberKind {
    match number {
        Number::Count(n) => NumberKind::FixedCount(n),
        Number::A => NumberKind::AllAlternateAlleles,
        Number::R => NumberKind::RefPlusAlternateAlleles,
        Number::G => NumberKind::OnePerGenotype,
        Number::Unknown => NumberKind::Unknown,
    }
}

/// The value type that stands for a `Type` of the grammar engine.
pub open spec fn value_type_of(ty: Type) -> ValueType {
    match ty {
        Type::Integer => ValueType::Integer,
        Type::Float => ValueType::Float,
        Type::Flag => ValueType::Flag,
        Type::Character => ValueType::Character,
        Type::String => ValueType::String,
    }
}

/// The INFO declaration that stands for one of the grammar engine.
pub open spec fn info_def_of(line: InfoLine) -> InfoDefView {
    InfoDefView {
        id: line.id,
        number: number_kind_of(line.number),
        value_type: value_type_of(line.ty),
        description: line.description,
    }
}

/// The FILTER declaration that stands for one of the grammar engine.
pub open spec fn filter_def_of(line: FilterLine) -> FilterDefView {
    FilterDefView { id: line.id, description: line.description }
}

/// The count kind for a `Number` of the grammar engine.
pub fn number_kind(number: Number) -> (kind: NumberKind)
    ensures
        kind == number_kind_of(number),
{
    match number {
        Number::Count(n) => NumberKind::FixedCount(n),
        Number::A => NumberKind::AllAlternateAlleles,
        Number::R => NumberKind::RefPlusAlternateAlleles,
        Number::G => NumberKind::OnePerGenotype,
        Number::Unknown => NumberKind::Unknown,
    }
}

/// The value type for a `Type` of the grammar engine.
pub fn value_type(ty: Type) -> (value_type: ValueType)
    ensures
        value_type == value_type_of(ty),
{
    match ty {
        Type::Integer => ValueType::Integer,
        Type::Float => ValueType::Float,
        Type::Flag => ValueType::Flag,
        Type::Character => ValueType::Character,
        Type::String => ValueType::String,
    }
}

/// A parsed header: the typed model together with the grammar engine's own
/// header, against which data lines are decoded.
pub struct VcfHeader {
    file_format: FileFormat,
    infos: Vec<InfoDef>,
    filters: Vec<FilterDef>,
    engine: noodles_vcf::Header,
}

/// A `VcfHeader` as contracts see it.
pub struct VcfHeaderView {
    pub file_format: FileFormat,
    pub infos: Seq<InfoDefView>,
    pub filters: Seq<FilterDefView>,
}

/// The model of what the grammar engine's header holds.
pub open spec fn model_of(contents: HeaderContents) -> VcfHeaderView {
    VcfHeaderView {
        file_format: FileFormat { major: contents.major, minor: contents.minor },
        infos: contents.infos.map_values(|line: InfoLine| info_def_of(line)),
        filters: contents.filters.map_values(|line: FilterLine| filter_def_of(line)),
    }
}

/// Raised when a header text was read but does not form a valid header.
#[derive(Clone, Debug)]
pub struct HeaderError {
    pub detail: String,
}

/// The detail text of a header parse failure with the given engine message.
pub open spec fn parse_error_detail(message: Seq<char>) -> Seq<char> {
    "Error parsing header: "@ + message
}

impl View for VcfHeader {
    type V = VcfHeaderView;

    closed spec fn view(&self) -> VcfHeaderView {
        VcfHeaderView {
            file_format: self.file_format,
            infos: self.infos@.map_values(|d: InfoDef| d@),
            filters: self.filters@.map_values(|d: FilterDef| d@),
        }
    }
}

impl VcfHeader {
    /// The grammar engine's header that this header was built from.
    pub closed spec fn engine(&self) -> noodles_vcf::Header {
        self.engine
    }

    /// The version of the `##fileformat` line.
    pub fn file_format(&self) -> (f: FileFormat)
        ensures
            f == self@.file_format,
    {
        self.file_format
    }

    /// The INFO declarations, in declaration order.
    pub fn infos(&self) -> (infos: &Vec<InfoDef>)
        ensures
            infos@.map_values(|d: InfoDef| d@) == self@.infos,
    {
        &self.infos
    }

    /// The FILTER declarations, in declaration order.
    pub fn filters(&self) -> (filters: &Vec<FilterDef>)
        ensures
            filters@.map_values(|d: FilterDef| d@) == self@.filters,
    {
        &self.filters
    }

    pub(crate) fn engine_ref(&self) -> (engine: &noodles_vcf::Header)
        ensures
            *engine == self.engine(),
    {
        &self.engine
    }
}

/// The INFO declarations of the model, made from those of the grammar engine.
fn info_defs(lines: &Vec<DeclaredInfo>) -> (defs: Vec<InfoDef>)
    ensures
        defs@.map_values(|d: InfoDef| d@) == lines@.map_values(|i: DeclaredInfo| i@).map_values(
            |line: InfoLine| info_def_of(line),
        ),
{
    let mut defs: Vec<InfoDef> = Vec::new();
    let mut i: usize = 0;
    while i < lines.len()
        invariant
            i <= lines.len(),
            defs@.len() == i,
            forall|k: int| 0 <= k < i ==> (#[trigger] defs@[k])@ == info_def_of(lines@[k]@),
        decreases lines.len() - i,
    {
        let line = &lines[i];
        defs.push(
            InfoDef {
                id: line.id.clone(),
                number: number_kind(line.number),
                value_type: value_type(line.ty),
                description: line.description.clone(),
            },
        );
        i += 1;
    }
    assert(defs@.map_values(|d: InfoDef| d@) =~= lines@.map_values(|i: DeclaredInfo| i@).map_values(
        |line: InfoLine| info_def_of(line),
    ));
    defs
}

/// The FILTER declarations of the model, made from those of the grammar engine.
fn filter_defs(lines: &Vec<DeclaredFilter>) -> (defs: Vec<FilterDef>)
    ensures
        defs@.map_values(|d: FilterDef| d@) == lines@.map_values(|f: DeclaredFilter| f@).map_values(
            |line: FilterLine| filter_def_of(line),
        ),
{
    let mut defs: Vec<FilterDef> = Vec::new();
    let mut i: usize = 0;
    while i < lines.len()
        invariant
            i <= lines.len(),
            defs@.len() == i,
            forall|k: int| 0 <= k < i ==> (#[trigger] defs@[k])@ == filter_def_of(lines@[k]@),
        decreases lines.len() - i,
    {
        let line = &lines[i];
        defs.push(FilterDef { id: line.id.clone(), description: line.description.clone() });
        i += 1;
    }
    assert(defs@.map_values(|d: FilterDef| d@) =~= lines@.map_values(
        |f: DeclaredFilter| f@,
    ).map_values(|line: FilterLine| filter_def_of(line)));
    defs
}

/// Parses the meta-information block of a VCF text, up to and including the
/// column header line, into a header.
///
/// The text is accepted exactly when the grammar engine accepts it. The
/// header then models what the engine holds, declaration by declaration;
/// otherwise the error carries the engine's message.
pub fn parse_header(text: &str) -> (r: Result<VcfHeader, HeaderError>)
    ensures
        match header_outcome(text@) {
            Ok(engine) => r is Ok && r->Ok_0.engine() == engine && r->Ok_0@ == model_of(
                header_contents(engine),
            ),
            Err(error) => r is Err && r->Err_0.detail@ == parse_error_detail(
                header_error_text(error),
            ),
        },
{
    match parse_header_text(text) {
        Ok(engine) => {
            let version = header_version(&engine);
            let infos = info_defs(&header_infos(&engine));
            let filters = filter_defs(&header_filters(&engine));
            Ok(
                VcfHeader {
                    file_format: FileFormat { major: version.0, minor: version.1 },
                    infos,
                    filters,
                    engine,
                },
            )
        },
        Err(error) => {
            let message = header_error_message(&error);
            let detail = String::from_str("Error parsing header: ").concat(message.as_str());
            Err(HeaderError { detail })
        },
    }
}

} // verus!
