use readstat_sas::types::{SasHeader, SasHeaderEnd, SasHeaderStart};

#[test]
fn test_sas_header_start() {
    let header_start = SasHeaderStart::builder().build().unwrap();
    assert_eq!(header_start.magic, [0; 32]);
}

#[test]
fn test_sas_header_start_new() {
    let header_start = SasHeaderStart::new(
        [0; 32], 0, [0; 2], 0, [0; 1], 0, [0; 1], ' ', [0; 30], 0, [0; 13], [' '; 8],
        [' '; 32], [0; 32], [' '; 8],
    );
    assert_eq!(header_start.magic, [0; 32]);
}

#[test]
fn test_sas_header_end() {
    let header_end = SasHeaderEnd::builder().build().unwrap();
    assert_eq!(header_end.release, [' '; 8]);
}

#[test]
fn test_sas_header_end_new() {
    let header_end = SasHeaderEnd::new(
        [' '; 8], [' '; 16], [' '; 16], [' '; 16], [' '; 16], [' '; 48],
    );
    assert_eq!(header_end.release, [' '; 8]);
}

#[test]
fn test_sas_header() {
    let header = SasHeader::builder().build().unwrap();
    assert_eq!(header.start.magic, [0; 32]);
}

#[test]
fn test_sas_header_new() {
    let header = SasHeader::new(
        SasHeaderStart::builder().build().unwrap(),
        SasHeaderEnd::builder().build().unwrap(),
    );
    assert_eq!(header.start.magic, [0; 32]);
}

#[test]
fn test_sas_header_builder_starts_blank() {
    let header = SasHeader::builder().build().unwrap();
    let start = SasHeaderStart::new(
        [0; 32], 0, [0; 2], 0, [0; 1], 0, [0; 1], ' ', [0; 30], 0, [0; 13], [' '; 8],
        [' '; 32], [0; 32], [' '; 8],
    );
    let end = SasHeaderEnd::new(
        [' '; 8], [' '; 16], [' '; 16], [' '; 16], [' '; 16], [' '; 48],
    );
    assert_eq!(header, SasHeader::new(start, end));
}

#[test]
fn test_sas_header_start_builder_sets_fields() {
    let start = SasHeaderStart::builder().endian(1).encoding(62).magic([7; 32]).build().unwrap();
    assert_eq!(start.endian, 1);
    assert_eq!(start.encoding, 62);
    assert_eq!(start.magic, [7; 32]);
    assert_eq!(start.file_type, [' '; 8]);
}
