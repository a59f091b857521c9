use readstat_sas::constants::SasCatalog;
use readstat_sas::types::{
    ReadStatHandler, SasAlignmentOffset, SasColumnType, SasCompression, SasCompressionSignature,
    SasEndian, SasFileFormat, SasFileHeaderSize, SasFileMagicNumber, SasPageHeaderSize,
    SasPageSize, SasPageType, SasStringEncoding, SasSubheaderPointerSize,
};

#[test]
fn test_sas_endian() {
    assert_eq!(SasEndian::default(), SasEndian::Big);
    assert_eq!(SasEndian::Big.to_hex(), 0x00);
    assert_eq!(SasEndian::Little.to_hex(), 0x01);
}

#[test]
fn test_codes_of_the_format() {
    assert_eq!(SasFileFormat::Unix.code(), 1);
    assert_eq!(SasFileFormat::Windows.code(), 2);
    assert_eq!(SasAlignmentOffset::Offset0.code(), 0x22);
    assert_eq!(SasAlignmentOffset::Offset4.code(), 0x33);
    assert_eq!(SasColumnType::Numeric.code(), 0x01);
    assert_eq!(SasColumnType::Character.code(), 0x02);
    assert_eq!(SasPageType::Meta.code(), 0x0000);
    assert_eq!(SasPageType::Data.code(), 0x0100);
    assert_eq!(SasPageType::Mix.code(), 0x0200);
    assert_eq!(SasPageType::Amd.code(), 0x0400);
    assert_eq!(SasPageType::Meta2.code(), 0x4000);
    assert_eq!(SasPageType::Comp.code(), 0x9000);
    assert_eq!(SasSubheaderPointerSize::Bit32.code(), 12);
    assert_eq!(SasSubheaderPointerSize::Bit64.code(), 24);
    assert_eq!(SasPageHeaderSize::Bit32.code(), 24);
    assert_eq!(SasPageHeaderSize::Bit64.code(), 40);
    assert_eq!(SasCompression::Uncompressed.code(), 0x00);
    assert_eq!(SasCompression::Trunc.code(), 0x01);
    assert_eq!(SasCompression::Row.code(), 0x04);
    assert_eq!(SasFileHeaderSize::Bit32.code(), 1024);
    assert_eq!(SasFileHeaderSize::Bit64.code(), 8192);
    assert_eq!(SasPageSize::Default.code(), 4096);
    assert_eq!(SasCatalog::FirstIndexPage.code(), 1);
    assert_eq!(SasCatalog::UselessPages.code(), 3);
    assert_eq!(ReadStatHandler::Okay.code(), 0);
    assert_eq!(ReadStatHandler::Abort.code(), -1);
    assert_eq!(ReadStatHandler::SkipVariable.code(), 1);
}

#[test]
fn test_names_of_the_format() {
    assert_eq!(SasCompressionSignature::Rle.to_string(), "SASYZCRL");
    assert_eq!(SasCompressionSignature::Rdc.to_string(), "SASYZCR2");
    assert_eq!(SasStringEncoding::default(), SasStringEncoding::Windows1252);
    assert_eq!(SasStringEncoding::Windows1252.to_string(), "WINDOWS-1252");
    assert_eq!(SasFileMagicNumber::Sas7bdat.to_string(), "sas7bdat");
    assert_eq!(SasFileMagicNumber::Sas7bcat.to_string(), "sas7bcat");
}

#[test]
fn test_magic_numbers() {
    let dat = SasFileMagicNumber::Sas7bdat.get_array();
    let cat = SasFileMagicNumber::Sas7bcat.get_array();
    assert_eq!(
        dat,
        [
            0x00, 0x00, 0x00, 0x00, 0x00, 0x00, 0x00, 0x00, 0x00, 0x00, 0x00, 0x00, 0xc2, 0xea,
            0x81, 0x60, 0xb3, 0x14, 0x11, 0xcf, 0xbd, 0x92, 0x08, 0x00, 0x09, 0xc7, 0x31, 0x8c,
            0x18, 0x1f, 0x10, 0x11,
        ]
    );
    assert_eq!(dat[15], 0x60);
    assert_eq!(cat[15], 0x63);
    for i in 0..32 {
        if i != 15 {
            assert_eq!(dat[i], cat[i]);
        }
    }
}
