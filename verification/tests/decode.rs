use noodlex::genotypes::flatten_genotypes;
use noodlex::header::{parse_header, FileFormat, NumberKind, ValueType, VcfHeader};
use noodlex::record::{assemble, decode_record, FilterOutcome, RawRecord, VcfRecord};

const HEADER: &str = "##fileformat=VCFv4.3\n\
##INFO=<ID=DP,Number=1,Type=Integer,Description=\"Depth\">\n\
#CHROM\tPOS\tID\tREF\tALT\tQUAL\tFILTER\tINFO\n";

const SAMPLE_HEADER: &str = "##fileformat=VCFv4.3\n\
##INFO=<ID=DP,Number=1,Type=Integer,Description=\"Depth\">\n\
##INFO=<ID=DB,Number=0,Type=Flag,Description=\"dbSNP membership\">\n\
##INFO=<ID=AF,Number=A,Type=Float,Description=\"Allele frequency\">\n\
##INFO=<ID=AD,Number=R,Type=Integer,Description=\"Read depths\">\n\
##INFO=<ID=PL,Number=G,Type=Integer,Description=\"Likelihoods\">\n\
##INFO=<ID=XS,Number=.,Type=String,Description=\"Free text\">\n\
##INFO=<ID=XC,Number=2,Type=Character,Description=\"Two letters\">\n\
##FILTER=<ID=q10,Description=\"Quality below 10\">\n\
##FILTER=<ID=s50,Description=\"Less than half of samples have data\">\n\
##FORMAT=<ID=GT,Number=1,Type=String,Description=\"Genotype\">\n\
##FORMAT=<ID=DP,Number=1,Type=Integer,Description=\"Read depth\">\n\
#CHROM\tPOS\tID\tREF\tALT\tQUAL\tFILTER\tINFO\tFORMAT\tS1\tS2\n";

fn header(text: &str) -> VcfHeader {
    parse_header(text).expect("the header text is valid")
}

fn decode(line: &str) -> VcfRecord {
    decode_record(&header(SAMPLE_HEADER), line).expect("the line is valid")
}

fn strings(items: &[&str]) -> Vec<String> {
    items.iter().map(|s| s.to_string()).collect()
}

fn pairs(items: &[(&str, &str)]) -> Vec<(String, String)> {
    items.iter().map(|(k, v)| (k.to_string(), v.to_string())).collect()
}

#[test]
fn decodes_the_reference_line() {
    let record = decode_record(&header(HEADER), "1\t100\trs1\tA\tT\t50\tPASS\tDP=10").unwrap();
    assert_eq!(record.chromosome, "1");
    assert_eq!(record.position, 100);
    assert_eq!(record.ids, strings(&["rs1"]));
    assert_eq!(record.reference_bases, "A");
    assert_eq!(record.alternate_bases, "T");
    let score: f32 = record.quality_score.expect("a score").parse().unwrap();
    assert_eq!(score, 50.0);
    assert!(matches!(record.filters, FilterOutcome::Pass));
    assert_eq!(record.info, pairs(&[("DP", "10")]));
    assert!(record.format.is_empty());
    assert!(record.genotypes.is_empty());
}

#[test]
fn header_model_of_the_reference_text() {
    let h = header(HEADER);
    assert_eq!(h.file_format(), FileFormat { major: 4, minor: 3 });
    assert_eq!(h.infos().len(), 1);
    let info = &h.infos()[0];
    assert_eq!(info.id, "DP");
    assert_eq!(info.number, NumberKind::FixedCount(1));
    assert_eq!(info.value_type, ValueType::Integer);
    assert_eq!(info.description, "Depth");
    assert!(h.filters().is_empty());
}

#[test]
fn header_lists_every_number_kind_and_type() {
    let h = header(SAMPLE_HEADER);
    let seen: Vec<(String, NumberKind, ValueType)> =
        h.infos().iter().map(|i| (i.id.clone(), i.number, i.value_type)).collect();
    assert_eq!(
        seen,
        vec![
            ("DP".to_string(), NumberKind::FixedCount(1), ValueType::Integer),
            ("DB".to_string(), NumberKind::FixedCount(0), ValueType::Flag),
            ("AF".to_string(), NumberKind::AllAlternateAlleles, ValueType::Float),
            ("AD".to_string(), NumberKind::RefPlusAlternateAlleles, ValueType::Integer),
            ("PL".to_string(), NumberKind::OnePerGenotype, ValueType::Integer),
            ("XS".to_string(), NumberKind::Unknown, ValueType::String),
            ("XC".to_string(), NumberKind::FixedCount(2), ValueType::Character),
        ]
    );
    let filters: Vec<(String, String)> =
        h.filters().iter().map(|f| (f.id.clone(), f.description.clone())).collect();
    assert_eq!(
        filters,
        pairs(&[("q10", "Quality below 10"), ("s50", "Less than half of samples have data")])
    );
}

#[test]
fn header_without_file_format_is_a_parse_error() {
    let error = parse_header("#CHROM\tPOS\tID\tREF\tALT\tQUAL\tFILTER\tINFO\n").err().expect("the text is no header");
    assert!(error.detail.starts_with("Error parsing header: "));
    assert!(error.detail.len() > "Error parsing header: ".len());
}

#[test]
fn header_without_column_line_is_a_parse_error() {
    let error = parse_header("##fileformat=VCFv4.3\n").err().expect("the text is no header");
    assert_eq!(error.detail, "Error parsing header: missing header");
}

#[test]
fn empty_header_text_is_a_parse_error() {
    let error = parse_header("").err().expect("the text is no header");
    assert_eq!(error.detail, "Error parsing header: missing fileformat");
}

#[test]
fn ids_are_empty_exactly_for_a_dot() {
    assert!(decode("1\t100\t.\tA\tT\t50\tPASS\tDP=10").ids.is_empty());
    assert_eq!(decode("1\t100\trs1\tA\tT\t50\tPASS\tDP=10").ids, strings(&["rs1"]));
    assert_eq!(
        decode("1\t100\trs1;rs2;x3\tA\tT\t50\tPASS\tDP=10").ids,
        strings(&["rs1", "rs2", "x3"])
    );
}

#[test]
fn quality_score_is_absent_exactly_for_a_dot() {
    assert_eq!(decode("1\t100\t.\tA\tT\t.\tPASS\tDP=10").quality_score, None);
    let score = decode("1\t100\t.\tA\tT\t5.8\tPASS\tDP=10").quality_score.unwrap();
    assert_eq!(score.parse::<f32>().unwrap(), 5.8_f32);
    let score = decode("1\t100\t.\tA\tT\t0\tPASS\tDP=10").quality_score.unwrap();
    assert_eq!(score.parse::<f32>().unwrap(), 0.0_f32);
    let score = decode("1\t100\t.\tA\tT\t1e3\tPASS\tDP=10").quality_score.unwrap();
    assert_eq!(score.parse::<f32>().unwrap(), 1000.0_f32);
}

#[test]
fn filters_decode_to_the_three_outcomes() {
    assert!(matches!(decode("1\t100\t.\tA\tT\t50\tPASS\tDP=10").filters, FilterOutcome::Pass));
    assert!(matches!(decode("1\t100\t.\tA\tT\t50\t.\tDP=10").filters, FilterOutcome::NotTested));
    match decode("1\t100\t.\tA\tT\t50\tq10;s50\tDP=10").filters {
        FilterOutcome::Fail(names) => assert_eq!(names, strings(&["q10", "s50"])),
        other => panic!("expected a failure, got {:?}", other),
    }
    match decode("1\t100\t.\tA\tT\t50\tq10\tDP=10").filters {
        FilterOutcome::Fail(names) => assert_eq!(names, strings(&["q10"])),
        other => panic!("expected a failure, got {:?}", other),
    }
}

#[test]
fn info_keeps_column_order_and_value_texts() {
    let record = decode("1\t100\t.\tA\tT\t50\tPASS\tXS=b,a;DP=10;DB");
    assert_eq!(record.info, pairs(&[("XS", "b,a"), ("DP", "10"), ("DB", "")]));
    assert!(decode("1\t100\t.\tA\tT\t50\tPASS\t.").info.is_empty());
}

#[test]
fn info_entry_with_left_out_value_reads_as_a_dot() {
    let record = decode("1\t100\t.\tA\tT\t50\tPASS\tDP=.");
    assert_eq!(record.info, pairs(&[("DP", ".")]));
}

#[test]
fn format_lists_the_keys_in_order() {
    let record = decode("1\t100\t.\tA\tT\t50\tPASS\tDP=10\tGT:DP\t0/1:5\t1/1:9");
    assert_eq!(record.format, strings(&["GT", "DP"]));
    assert!(decode("1\t100\t.\tA\tT\t50\tPASS\tDP=10").format.is_empty());
}

#[test]
fn genotypes_keep_the_first_sample_only() {
    let record = decode("1\t100\t.\tA\tT\t50\tPASS\tDP=10\tGT:DP\t0/1:5\t1/1:9");
    assert_eq!(record.genotypes, pairs(&[("GT", "0/1"), ("DP", "5")]));
}

#[test]
fn genotypes_take_a_key_from_a_later_sample_if_the_first_lacks_it() {
    let record = decode("1\t100\t.\tA\tT\t50\tPASS\tDP=10\tGT:DP\t0/1\t1/1:9");
    assert_eq!(record.genotypes, pairs(&[("GT", "0/1"), ("DP", "9")]));
}

#[test]
fn flatten_drops_later_duplicates() {
    let samples = vec![
        pairs(&[("GT", "0/1"), ("DP", "5")]),
        pairs(&[("GT", "1/1"), ("DP", "9"), ("GQ", "7")]),
    ];
    assert_eq!(flatten_genotypes(&samples), pairs(&[("GT", "0/1"), ("DP", "5"), ("GQ", "7")]));
    assert!(flatten_genotypes(&Vec::new()).is_empty());
}

#[test]
fn assemble_takes_every_column_over() {
    let raw = RawRecord {
        chromosome: "chr2".to_string(),
        position: 7,
        ids: strings(&["a", "b"]),
        reference_bases: "AC".to_string(),
        alternate_bases: "A,T".to_string(),
        quality_score: Some("12.5".to_string()),
        filters: FilterOutcome::Fail(strings(&["q10"])),
        info: vec![
            ("DP".to_string(), Some("3".to_string())),
            ("AF".to_string(), None),
            ("DB".to_string(), Some(String::new())),
        ],
        format: strings(&["GT", "DP"]),
        samples: vec![pairs(&[("GT", "0/1"), ("DP", "5")]), pairs(&[("GT", "1/1"), ("DP", "9")])],
    };
    let record = assemble(raw);
    assert_eq!(record.chromosome, "chr2");
    assert_eq!(record.position, 7);
    assert_eq!(record.ids, strings(&["a", "b"]));
    assert_eq!(record.reference_bases, "AC");
    assert_eq!(record.alternate_bases, "A,T");
    assert_eq!(record.quality_score.as_deref(), Some("12.5"));
    assert!(matches!(&record.filters, FilterOutcome::Fail(n) if n == &strings(&["q10"])));
    assert_eq!(record.info, pairs(&[("DP", "3"), ("AF", "."), ("DB", "")]));
    assert_eq!(record.format, strings(&["GT", "DP"]));
    assert_eq!(record.genotypes, pairs(&[("GT", "0/1"), ("DP", "5")]));
}

#[test]
fn non_numeric_position_is_a_decode_error() {
    let error = decode_record(&header(HEADER), "1\tabc\trs1\tA\tT\t50\tPASS\tDP=10").unwrap_err();
    assert_eq!(error.detail, "invalid position: invalid digit found in string");
}

#[test]
fn too_few_columns_is_a_decode_error() {
    let error = decode_record(&header(HEADER), "1\t100\trs1\tA").unwrap_err();
    assert!(error.detail.starts_with("missing field"));
}

#[test]
fn duplicate_ids_are_a_decode_error() {
    let error = decode_record(&header(HEADER), "1\t100\trs1;rs1\tA\tT\t50\tPASS\tDP=10");
    assert_eq!(error.unwrap_err().detail, "invalid IDs: duplicate ID: rs1");
}

#[test]
fn info_value_of_the_wrong_type_is_a_decode_error() {
    assert!(decode_record(&header(HEADER), "1\t100\trs1\tA\tT\t50\tPASS\tDP=ten").is_err());
}
