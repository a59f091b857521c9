use readstat_sas::types::sas::column_name::SasColumnNameBuilder;
use readstat_sas::types::{BuilderError, SasColumnName};

#[test]
fn test_valid_column_name() {
    let column_name = SasColumnName::from_str("valid_column_name").unwrap();
    assert_eq!(column_name.name, "valid_column_name");
}

#[test]
fn test_column_name_builder() {
    let column_name = SasColumnName::builder()
        .name("valid_column_name".to_string())
        .build()
        .unwrap();
    assert_eq!(column_name.name, "valid_column_name");
}

#[test]
fn test_invalid_column_name_too_long() {
    let a_column_name = "this_column_name_is_too_long_really_tooooooo_long";

    // This column name is too long, so it should fail
    let column_name = SasColumnName::from_str(a_column_name);
    assert!(column_name.is_err());
}

#[test]
fn test_invalid_column_name_illegal_characters() {
    let a_column_name = "this_column_name_has_illegal_characters!";

    // This column name has illegal characters, so it should fail
    let column_name = SasColumnName::from_str(a_column_name);
    assert!(column_name.is_err());
}

#[test]
fn test_column_name_errors() {
    let long = "a".repeat(33);
    assert_eq!(SasColumnName::from_str(&long), Err("Column name is too long"));
    assert_eq!(
        SasColumnName::from_str("no spaces"),
        Err("Column name contains illegal characters")
    );
    assert_eq!(
        SasColumnName::from_str("caf\u{e9}"),
        Err("Column name contains illegal characters")
    );
    let long_and_illegal = "!".repeat(33);
    assert_eq!(SasColumnName::from_str(&long_and_illegal), Err("Column name is too long"));
}

#[test]
fn test_column_name_at_the_limit() {
    let longest = "a".repeat(32);
    assert_eq!(SasColumnName::from_str(&longest).unwrap().name, longest);
    assert_eq!(SasColumnName::from_str("").unwrap().name, "");
    assert_eq!(SasColumnName::from_str("AZaz09_").unwrap().name, "AZaz09_");
}

#[test]
fn test_column_name_builder_without_a_name() {
    assert_eq!(
        SasColumnName::builder().build(),
        Err(BuilderError::UninitializedField("name"))
    );
    assert_eq!(
        SasColumnNameBuilder::default().name(String::from("x")).build(),
        Ok(SasColumnName::new(String::from("x")))
    );
}
