use readstat_sas::types::sas::subheader_signature::SasSubheaderSignatureBuilder;
use readstat_sas::types::{BuilderError, SasSubheaderSignature};

#[test]
fn test_read_stat_subheader_signature() {
    let subheader_signature = SasSubheaderSignature::default();
    assert_eq!(subheader_signature.row_size, 0xF7F7F7F7);
}

#[test]
fn test_read_stat_subheader_signature_new() {
    let subheader_signature = SasSubheaderSignature::new(
        0xF7F7F7F7, 0xF6F6F6F6, 0xFFFFFC00, 0xFFFFFBFE, 0xFFFFFFF8, 0xFFFFFFFC, 0xFFFFFFFD,
        0xFFFFFFFE, 0xFFFFFFFF,
    );
    assert_eq!(subheader_signature.row_size, 0xF7F7F7F7);
}

#[test]
fn test_read_stat_subheader_signature_default_values() {
    assert_eq!(
        SasSubheaderSignature::default(),
        SasSubheaderSignature::new(
            0xF7F7F7F7, 0xF6F6F6F6, 0xFFFFFC00, 0xFFFFFBFE, 0xFFFFFFF8, 0xFFFFFFFC, 0xFFFFFFFD,
            0xFFFFFFFE, 0xFFFFFFFF,
        )
    );
    assert_eq!(
        SasSubheaderSignatureBuilder::default().row_size(1).build(),
        Err(BuilderError::UninitializedField("column_size"))
    );
}
