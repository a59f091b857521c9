use readstat_sas::types::{
    ReadStatAlignment, ReadStatLabelSet, ReadStatMeasure, ReadStatMissingRanges, ReadStatType,
    ReadStatValueLabel, ReadStatVariable, SasLabelName,
};

#[test]
fn test_read_stat_variable_type() {
    let variable = ReadStatVariable::builder()
        .type_(ReadStatType::Int64)
        .build()
        .unwrap();
    assert_eq!(variable.type_, ReadStatType::Int64);
}

#[test]
fn test_read_stat_variable_index() {
    let variable = ReadStatVariable::builder().index(1).build().unwrap();
    assert_eq!(variable.index, 1);
}

#[test]
fn test_read_stat_variable_name() {
    let variable = ReadStatVariable::builder()
        .name(String::from("name"))
        .build()
        .unwrap();
    assert_eq!(variable.name, String::from("name"));
}

#[test]
fn test_read_stat_variable_format() {
    let variable = ReadStatVariable::builder()
        .format(String::from("format"))
        .build()
        .unwrap();
    assert_eq!(variable.format, String::from("format"));
}

#[test]
fn test_read_stat_variable_label() {
    let variable = ReadStatVariable::builder()
        .label(String::from("label"))
        .build()
        .unwrap();
    assert_eq!(variable.label, String::from("label"));
}

#[test]
fn test_read_stat_variable_label_set() {
    let variable = ReadStatVariable::builder().build().unwrap();
    assert_eq!(
        variable.label_set,
        ReadStatLabelSet::new(
            ReadStatType::Double,
            SasLabelName::from_str("label"),
            ReadStatValueLabel::new(String::new(), 0, 0.0_f64.to_bits(), 0, String::new(), 0, Vec::new()),
            0,
            0,
        )
    );
}

#[test]
fn test_read_stat_variable_offset() {
    let variable = ReadStatVariable::builder().offset(1).build().unwrap();
    assert_eq!(variable.offset, 1);
}

#[test]
fn test_read_stat_variable() {
    let variable = ReadStatVariable::builder().build().unwrap();
    assert_eq!(variable.storage_width, 0);
    assert_eq!(variable.user_width, 0);
    assert_eq!(
        variable.missing_ranges,
        ReadStatMissingRanges::new(Vec::new(), 0)
    );
    assert_eq!(variable.display_width, 0);
    assert_eq!(variable.display_decimals, 0);
    assert_eq!(variable.skip, false);
    assert_eq!(variable.index_after_skipping, 0);
}

#[test]
fn test_read_stat_variable_measure_and_alignment() {
    let variable = ReadStatVariable::builder().build().unwrap();
    assert_eq!(variable.type_, ReadStatType::Double);
    assert_eq!(variable.measure, Some(ReadStatMeasure::Nominal));
    assert_eq!(variable.alignment, Some(ReadStatAlignment::Left));
    let variable = ReadStatVariable::builder().measure(None).alignment(None).build().unwrap();
    assert_eq!(variable.measure, None);
    assert_eq!(variable.alignment, None);
}
