use readstat_sas::sas::byte_swap::byteswap;
use readstat_sas::sas::read_int::{sas_read, sas_read2, sas_read4, sas_read8, SasReadError};

#[test]
fn test_sas_read8() {
    let data = "\x01\x02\x03\x04\x05\x06\x07\x08"; // Represents a u64 value
    let result = sas_read8(data, false).unwrap();
    assert_eq!(result, 0x0102030405060708);

    let swapped_result = sas_read8(data, true).unwrap();
    assert_eq!(swapped_result, byteswap(0x0102030405060708));
}

#[test]
fn test_sas_read4() {
    let data = "\x01\x02\x03\x04"; // Represents a u32 value
    let result = sas_read4(data, false).unwrap();
    assert_eq!(result, 0x01020304);

    let swapped_result = sas_read4(data, true).unwrap();
    assert_eq!(swapped_result, byteswap(0x01020304));
}

#[test]
fn test_sas_read2() {
    let data = "\x01\x02"; // Represents a u16 value
    let result = sas_read2(data, false).unwrap();
    assert_eq!(result, 0x0102);

    let swapped_result = sas_read2(data, true).unwrap();
    assert_eq!(swapped_result, byteswap(0x0102));
}

#[test]
fn test_sas_read_invalid_size() {
    let data = "\x01"; // Not enough bytes for u16, u32, or u64
    let result = sas_read2(data, false);
    assert!(
        result.is_err(),
        "Expected an error for insufficient data size"
    );
    assert_eq!(result, Err(SasReadError::InsufficientData { needed: 2, available: 1 }));
    assert_eq!(
        sas_read4(data, true),
        Err(SasReadError::InsufficientData { needed: 4, available: 1 })
    );
    assert_eq!(
        sas_read8("", false),
        Err(SasReadError::InsufficientData { needed: 8, available: 0 })
    );
}

#[test]
fn test_sas_read_swapped_is_little_endian() {
    let data = [0x01_u8, 0x02, 0x03, 0x04, 0x05, 0x06, 0x07, 0x08];
    assert_eq!(sas_read::<u64>(&data, false), Ok(u64::from_be_bytes(data)));
    assert_eq!(sas_read::<u64>(&data, true), Ok(u64::from_le_bytes(data)));
    assert_eq!(sas_read::<u64>(&data, true), Ok(0x0807_0605_0403_0201));
    assert_eq!(sas_read::<u32>(&data, false), Ok(0x0102_0304));
    assert_eq!(sas_read::<u32>(&data, true), Ok(0x0403_0201));
    assert_eq!(sas_read::<u16>(&data, false), Ok(0x0102));
    assert_eq!(sas_read::<u16>(&data, true), Ok(0x0201));
}

#[test]
fn test_sas_read_takes_the_first_bytes_only() {
    let data = [0xff_u8, 0xfe, 0xfd, 0xfc, 0xfb, 0xfa, 0xf9, 0xf8, 0x11, 0x22];
    assert_eq!(sas_read::<u16>(&data, false), Ok(0xfffe));
    assert_eq!(sas_read::<u32>(&data, false), Ok(0xfffe_fdfc));
    assert_eq!(sas_read::<u64>(&data, false), Ok(0xfffe_fdfc_fbfa_f9f8));
    assert_eq!(sas_read::<u64>(&data, true), Ok(0xf8f9_fafb_fcfd_feff));
}

#[test]
fn test_sas_read_short_spans() {
    let data = [0x01_u8, 0x02, 0x03, 0x04, 0x05, 0x06, 0x07];
    assert_eq!(
        sas_read::<u64>(&data, false),
        Err(SasReadError::InsufficientData { needed: 8, available: 7 })
    );
    assert_eq!(
        sas_read::<u32>(&data[..3], true),
        Err(SasReadError::InsufficientData { needed: 4, available: 3 })
    );
    assert_eq!(
        sas_read::<u16>(&data[..0], false),
        Err(SasReadError::InsufficientData { needed: 2, available: 0 })
    );
    assert_eq!(sas_read::<u16>(&data[..2], false), Ok(0x0102));
}

#[test]
fn test_sas_read_of_text_reads_its_bytes() {
    assert_eq!(sas_read2("\u{e9}", false), Ok(0xc3a9));
    assert_eq!(sas_read2("\u{e9}", true), Ok(0xa9c3));
}
