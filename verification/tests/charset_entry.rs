use readstat_sas::types::ReadStatCharsetEntry;

#[test]
fn test_read_stat_charset_entry() {
    let charset_entry = ReadStatCharsetEntry::builder().build().unwrap();
    assert_eq!(charset_entry.code, 0);
}

#[test]
fn test_read_stat_charset_entry_new() {
    let charset_entry = ReadStatCharsetEntry::new(0, String::new());
    assert_eq!(charset_entry.code, 0);
}

#[test]
fn test_read_stat_charset_entry_builder_sets_fields() {
    let entry = ReadStatCharsetEntry::builder()
        .code(62)
        .name(String::from("WINDOWS-1252"))
        .build()
        .unwrap();
    assert_eq!(entry, ReadStatCharsetEntry::new(62, String::from("WINDOWS-1252")));
    assert_eq!(ReadStatCharsetEntry::builder().build().unwrap().name, "");
}
