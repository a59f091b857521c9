use readstat_sas::types::ReadStatValueLabel;

#[test]
fn test_read_stat_value_label() {
    let value_label = ReadStatValueLabel::builder().build().unwrap();
    assert_eq!(value_label.label, String::new());
    assert_eq!(value_label.label_length, 0);
    assert_eq!(f64::from_bits(value_label.double_key), 0.0);
    assert_eq!(value_label.int32_key, 0);
    assert_eq!(value_label.string_key, String::new());
    assert_eq!(value_label.string_key_length, 0);
    assert_eq!(value_label.tags, Vec::<String>::new());
}
