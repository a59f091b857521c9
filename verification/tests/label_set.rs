use readstat_sas::types::{ReadStatLabelSet, ReadStatType, ReadStatValueLabel, SasLabelName};

#[test]
fn test_read_stat_label_set() {
    let label_set = ReadStatLabelSet::new(
        ReadStatType::Int64,
        SasLabelName::from_str("label"),
        ReadStatValueLabel::new(String::new(), 0, 0.0_f64.to_bits(), 0, String::new(), 0, Vec::new()),
        0,
        0,
    );

    assert_eq!(label_set.type_, ReadStatType::Int64);
    assert_eq!(label_set.name, SasLabelName::from_str("label"));
    assert_eq!(label_set.value_labels_count, 0);
    assert_eq!(label_set.value_labels_capacity, 0);
}

#[test]
fn test_read_stat_label_set_starts_without_variables() {
    let label_set = ReadStatLabelSet::new(
        ReadStatType::Int64,
        SasLabelName::from_str("label"),
        ReadStatValueLabel::builder().build().unwrap(),
        1,
        2,
    );
    assert_eq!(label_set.value_labels_count, 1);
    assert_eq!(label_set.value_labels_capacity, 2);
    assert_eq!(label_set.variables, None);
    assert_eq!(label_set.variable_count, None);
    assert_eq!(label_set.variable_capacity, None);
    assert_eq!(SasLabelName::new(String::from("label")), SasLabelName::from_str("label"));
}
