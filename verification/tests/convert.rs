use noodlex::header::{NumberKind, ValueType};
use noodlex::record::FilterOutcome;
use noodlex::value::{convert_filters, convert_number, convert_type, Payload, Tag};

#[test]
fn count_kinds_convert_to_their_tags() {
    let fixed = convert_number(NumberKind::FixedCount(3));
    assert_eq!(fixed.tag, Tag::Count);
    assert!(matches!(fixed.payload, Payload::Count(3)));
    let cases = [
        (NumberKind::AllAlternateAlleles, Tag::AlternateAlleles),
        (NumberKind::RefPlusAlternateAlleles, Tag::ReferenceAndAlternateAlleles),
        (NumberKind::OnePerGenotype, Tag::Genotypes),
        (NumberKind::Unknown, Tag::Unknown),
    ];
    for (kind, tag) in cases {
        let tagged = convert_number(kind);
        assert_eq!(tagged.tag, tag);
        assert!(matches!(tagged.payload, Payload::Nothing));
    }
}

#[test]
fn value_types_convert_to_their_tags() {
    let cases = [
        (ValueType::Integer, Tag::Integer),
        (ValueType::Float, Tag::Float),
        (ValueType::Flag, Tag::Flag),
        (ValueType::Character, Tag::Character),
        (ValueType::String, Tag::String),
    ];
    for (value_type, tag) in cases {
        let tagged = convert_type(value_type);
        assert_eq!(tagged.tag, tag);
        assert!(matches!(tagged.payload, Payload::Nothing));
    }
}

#[test]
fn filter_outcomes_convert_to_their_tags() {
    let tagged = convert_filters(&FilterOutcome::NotTested);
    assert_eq!(tagged.tag, Tag::NotTested);
    assert!(matches!(tagged.payload, Payload::Nothing));
    let tagged = convert_filters(&FilterOutcome::Pass);
    assert_eq!(tagged.tag, Tag::Pass);
    assert!(matches!(tagged.payload, Payload::Nothing));
    let failed = FilterOutcome::Fail(vec!["q10".to_string(), "s50".to_string()]);
    let tagged = convert_filters(&failed);
    assert_eq!(tagged.tag, Tag::Fail);
    match tagged.payload {
        Payload::Names(names) => assert_eq!(names, vec!["q10".to_string(), "s50".to_string()]),
        other => panic!("expected names, got {:?}", other),
    }
}

#[test]
fn tags_have_their_names() {
    assert_eq!(Tag::Unknown.name(), "unknown");
    assert_eq!(Tag::Count.name(), "count");
    assert_eq!(Tag::AlternateAlleles.name(), "alternate_alleles");
    assert_eq!(Tag::ReferenceAndAlternateAlleles.name(), "reference_and_alternate_alleles");
    assert_eq!(Tag::Genotypes.name(), "genotypes");
    assert_eq!(Tag::Integer.name(), "integer");
    assert_eq!(Tag::Float.name(), "float");
    assert_eq!(Tag::Flag.name(), "flag");
    assert_eq!(Tag::Character.name(), "character");
    assert_eq!(Tag::String.name(), "string");
    assert_eq!(Tag::NotTested.name(), "none");
    assert_eq!(Tag::Pass.name(), "pass");
    assert_eq!(Tag::Fail.name(), "fail");
}
