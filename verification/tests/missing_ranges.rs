use readstat_sas::types::ReadStatMissingRanges;

#[test]
fn test_read_stat_missing_ranges() {
    let missing_ranges = ReadStatMissingRanges::builder().build().unwrap();
    assert_eq!(missing_ranges.missing_ranges_count, 0);
}

#[test]
fn test_read_stat_missing_ranges_new() {
    let missing_ranges = ReadStatMissingRanges::new(Vec::new(), 0);
    assert_eq!(missing_ranges.missing_ranges_count, 0);
}

#[test]
fn test_read_stat_missing_ranges_builder_starts_empty() {
    let missing_ranges = ReadStatMissingRanges::builder().build().unwrap();
    assert!(missing_ranges.missing_ranges.is_empty());
    assert_eq!(missing_ranges, ReadStatMissingRanges::new(Vec::new(), 0));
}
