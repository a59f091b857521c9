use readstat_sas::sas::conversion::ConversionType;

#[test]
fn test_conversion_type() {
    let conversion_type = ConversionType::from_i32(0).unwrap();
    assert_eq!(conversion_type, ConversionType::Native);
    assert_eq!(conversion_type.to_i32(), 0);
    assert_eq!(conversion_type.to_string(), "native");
    assert_eq!(
        ConversionType::from_str("native").unwrap(),
        ConversionType::Native
    );
}

#[test]
fn test_conversion_type_round_trips_through_code() {
    let all = [
        ConversionType::Native,
        ConversionType::Xport,
        ConversionType::IeeeBigEndian,
        ConversionType::IeeeLittleEndian,
    ];
    for (code, mode) in all.iter().enumerate() {
        assert_eq!(mode.to_i32(), code as i32);
        assert_eq!(ConversionType::from_i32(mode.to_i32()), Some(*mode));
    }
}

#[test]
fn test_conversion_type_round_trips_through_label() {
    let all = [
        (ConversionType::Native, "native"),
        (ConversionType::Xport, "xport"),
        (ConversionType::IeeeBigEndian, "ieee-big-endian"),
        (ConversionType::IeeeLittleEndian, "ieee-little-endian"),
    ];
    for (mode, label) in all {
        assert_eq!(mode.to_string(), label);
        assert_eq!(ConversionType::from_str(&mode.to_string()), Some(mode));
    }
}

#[test]
fn test_conversion_type_unknown_code_and_label() {
    assert_eq!(ConversionType::from_i32(99), None);
    assert_eq!(ConversionType::from_i32(4), None);
    assert_eq!(ConversionType::from_i32(-1), None);
    assert_eq!(ConversionType::from_str("bogus"), None);
    assert_eq!(ConversionType::from_str("Native"), None);
    assert_eq!(ConversionType::from_str(""), None);
}

#[test]
fn test_conversion_type_default() {
    assert_eq!(ConversionType::default(), ConversionType::Native);
}
