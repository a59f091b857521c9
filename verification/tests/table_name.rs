use readstat_sas::types::{BuilderError, SasTableName};

#[test]
fn test_valid_table_name() {
    let table_name = SasTableName::from_str("valid_table_name").unwrap();
    assert_eq!(table_name.name, "valid_table_name");
}

#[test]
fn test_table_name_builder() {
    let table_name = SasTableName::builder()
        .name("valid_table_name".to_string())
        .build()
        .unwrap();
    assert_eq!(table_name.name, "valid_table_name");
}

#[test]
fn test_invalid_table_name_too_long() {
    let a_table_name = "this_table_name_is_too_long_really_tooooooo_long";

    // This table name is too long, so it should fail
    let table_name = SasTableName::from_str(a_table_name);
    assert!(table_name.is_err());
}

#[test]
fn test_invalid_table_name_illegal_characters() {
    let a_table_name = "this_table_name_has_illegal_characters!";

    // This table name has illegal characters, so it should fail
    let table_name = SasTableName::from_str(a_table_name);
    assert!(table_name.is_err());
}

#[test]
fn test_table_name_errors() {
    let long = "a".repeat(33);
    assert_eq!(SasTableName::from_str(&long), Err("Table name is too long"));
    assert_eq!(
        SasTableName::from_str("no-dashes"),
        Err("Table name contains illegal characters")
    );
    assert_eq!(SasTableName::builder().build(), Err(BuilderError::UninitializedField("name")));
    let longest = "t".repeat(32);
    assert_eq!(SasTableName::from_str(&longest).unwrap().name, longest);
}
