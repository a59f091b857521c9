use readstat_sas::types::{ReadStatSchemaEntry, ReadStatVariable};

#[test]
fn test_read_stat_schema_entry() {
    let schema_entry = ReadStatSchemaEntry::new(
        0,
        0,
        0,
        false,
        ReadStatVariable::builder().build().unwrap(),
        String::new(),
        ' ',
    );

    assert_eq!(schema_entry.row, 0);
    assert_eq!(schema_entry.col, 0);
    assert_eq!(schema_entry.len, 0);
    assert_eq!(schema_entry.skip, false);
    assert_eq!(schema_entry.labelset, String::new());
    assert_eq!(schema_entry.decimal_separator, ' ');
}
