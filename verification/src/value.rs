//! Tagged values: the self-describing form in which count kinds, value
//! types and filter outcomes leave the library.

use crate::header::{NumberKind, ValueType};
use crate::record::{texts, FilterOutcome, FilterOutcomeView};
use vstd::prelude::*;

verus! {

/// The tag of a tagged value.
#[derive(Clone, Copy, Debug, PartialEq, Eq, Structural)]
pub enum Tag {
    Unknown,
    Count,
    AlternateAlleles,
    ReferenceAndAlternateAlleles,
    Genotypes,
    Integer,
    Float,
    Flag,
    Character,
    String,
    NotTested,
    Pass,
    Fail,
}

/// What a tagged value carries besides its tag.
#[derive(Clone, Debug)]
pub enum Payload {
    Nothing,
    Count(usize),
    Names(Vec<String>),
}

/// A `Payload` with its names as character sequences.
pub enum PayloadView {
    Nothing,
    Count(usize),
    Names(Seq<Seq<char>>),
}

/// A tag with its payload.
#[derive(Clone, Debug)]
pub struct Tagged {
    pub tag: Tag,
    pub payload: Payload,
}

/// A `Tagged` as contracts see it.
pub struct TaggedView {
    pub tag: Tag,
    pub payload: PayloadView,
}

impl View for Payload {
    type V = PayloadView;

    open spec fn view(&self) -> PayloadView {
        match self {
            Payload::Nothing => PayloadView::Nothing,
            Payload::Count(n) => PayloadView::Count(*n),
            Payload::Names(names) => PayloadView::Names(texts(names@)),
        }
    }
}

impl View for Tagged {
    type V = TaggedView;

    open spec fn view(&self) -> TaggedView {
        TaggedView { tag: self.tag, payload: self.payload@ }
    }
}

impl Tag {
    /// The name under which the tag is written out.
    pub open spec fn spec_name(self) -> Seq<char> {
        match self {
            Tag::Unknown => "unknown"@,
            Tag::Count => "count"@,
            Tag::AlternateAlleles => "alternate_alleles"@,
            Tag::ReferenceAndAlternateAlleles => "reference_and_alternate_alleles"@,
            Tag::Genotypes => "genotypes"@,
            Tag::Integer => "integer"@,
            Tag::Float => "float"@,
            Tag::Flag => "flag"@,
            Tag::Character => "character"@,
            Tag::String => "string"@,
            Tag::NotTested => "none"@,
            Tag::Pass => "pass"@,
            Tag::Fail => "fail"@,
        }
    }

    /// The name under which the tag is written out.
    pub fn name(&self) -> (name: &'static str)
        ensures
            name@ == self.spec_name(),
    {
        match self {
            Tag::Unknown => "unknown",
            Tag::Count => "count",
            Tag::AlternateAlleles => "alternate_alleles",
            Tag::ReferenceAndAlternateAlleles => "reference_and_alternate_alleles",
            Tag::Genotypes => "genotypes",
            Tag::Integer => "integer",
            Tag::Float => "float",
            Tag::Flag => "flag",
            Tag::Character => "character",
            Tag::String => "string",
            Tag::NotTested => "none",
            Tag::Pass => "pass",
            Tag::Fail => "fail",
        }
    }
}

/// The tagged value of a count kind.
pub open spec fn number_tagged(kind: NumberKind) -> TaggedView {
    match kind {
        NumberKind::FixedCount(n) => TaggedView { tag: Tag::Count, payload: PayloadView::Count(n) },
        NumberKind::AllAlternateAlleles => TaggedView {
            tag: Tag::AlternateAlleles,
            payload: PayloadView::Nothing,
        },
        NumberKind::RefPlusAlternateAlleles => TaggedView {
            tag: Tag::ReferenceAndAlternateAlleles,
            payload: PayloadView::Nothing,
        },
        NumberKind::OnePerGenotype => TaggedView {
            tag: Tag::Genotypes,
            payload: PayloadView::Nothing,
        },
        NumberKind::Unknown => TaggedView { tag: Tag::Unknown, payload: PayloadView::Nothing },
    }
}

/// The tag of a value type.
pub open spec fn type_tag(value_type: ValueType) -> Tag {
    match value_type {
        ValueType::Integer => Tag::Integer,
        ValueType::Float => Tag::Float,
        ValueType::Flag => Tag::Flag,
        ValueType::Character => Tag::Character,
        ValueType::String => Tag::String,
    }
}

/// The tagged value of a filter outcome.
pub open spec fn filter_tagged(outcome: FilterOutcomeView) -> TaggedView {
    match outcome {
        FilterOutcomeView::NotTested => TaggedView {
            tag: Tag::NotTested,
            payload: PayloadView::Nothing,
        },
        FilterOutcomeView::Pass => TaggedView { tag: Tag::Pass, payload: PayloadView::Nothing },
        FilterOutcomeView::Fail(names) => TaggedView {
            tag: Tag::Fail,
            payload: PayloadView::Names(names),
        },
    }
}

/// Converts a count kind. A fixed count carries its number.
pub fn convert_number(kind: NumberKind) -> (tagged: Tagged)
    ensures
        tagged@ == number_tagged(kind),
{
    match kind {
        NumberKind::FixedCount(n) => Tagged { tag: Tag::Count, payload: Payload::Count(n) },
        NumberKind::AllAlternateAlleles => Tagged {
            tag: Tag::AlternateAlleles,
            payload: Payload::Nothing,
        },
        NumberKind::RefPlusAlternateAlleles => Tagged {
            tag: Tag::ReferenceAndAlternateAlleles,
            payload: Payload::Nothing,
        },
        NumberKind::OnePerGenotype => Tagged { tag: Tag::Genotypes, payload: Payload::Nothing },
        NumberKind::Unknown => Tagged { tag: Tag::Unknown, payload: Payload::Nothing },
    }
}

/// Converts a value type. It carries nothing but its tag.
pub fn convert_type(value_type: ValueType) -> (tagged: Tagged)
    ensures
        tagged@ == (TaggedView { tag: type_tag(value_type), payload: PayloadView::Nothing }),
{
    let tag = match value_type {
        ValueType::Integer => Tag::Integer,
        ValueType::Float => Tag::Float,
        ValueType::Flag => Tag::Flag,
        ValueType::Character => Tag::Character,
        ValueType::String => Tag::String,
    };
    Tagged { tag, payload: Payload::Nothing }
}

/// Converts a filter outcome. A failure carries the names of the failed
/// filters, in order.
pub fn convert_filters(outcome: &FilterOutcome) -> (tagged: Tagged)
    ensures
        tagged@ == filter_tagged(outcome@),
{
    match outcome {
        FilterOutcome::NotTested => Tagged { tag: Tag::NotTested, payload: Payload::Nothing },
        FilterOutcome::Pass => Tagged { tag: Tag::Pass, payload: Payload::Nothing },
        FilterOutcome::Fail(names) => {
            let mut copy: Vec<String> = Vec::new();
            let mut i: usize = 0;
            while i < names.len()
                invariant
                    i <= names.len(),
                    copy@.len() == i,
                    forall|k: int| 0 <= k < i ==> (#[trigger] copy@[k])@ == names@[k]@,
                decreases names.len() - i,
            {
                copy.push(names[i].clone());
                i += 1;
            }
            assert(texts(copy@) =~= texts(names@));
            Tagged { tag: Tag::Fail, payload: Payload::Names(copy) }
        },
    }
}

} // verus!
