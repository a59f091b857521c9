use readstat_sas::types::readstat::ReadStatValueBuilder;
use readstat_sas::types::{BuilderError, ReadStatType, ReadStatValue, ReadStatValueType};

#[test]
fn test_read_stat_value() {
    let value = ReadStatValue::builder().build().unwrap();
    assert_eq!(value.type_, ReadStatType::Double);
    assert_eq!(value.tags, Vec::<String>::new());
    assert_eq!(value.value, ReadStatValueType::Double(0.0_f64.to_bits()));
}

#[test]
fn test_read_stat_value_new() {
    let value = ReadStatValue::new(
        ReadStatType::Double,
        Vec::new(),
        ReadStatValueType::Double(0.0_f64.to_bits()),
    );
    assert_eq!(value.type_, ReadStatType::Double);
    assert_eq!(value.tags, Vec::<String>::new());
    assert_eq!(value.value, ReadStatValueType::Double(0.0_f64.to_bits()));
}

#[test]
fn test_read_stat_value_is_system_missing() {
    let value = ReadStatValue::builder()
        .value(ReadStatValueType::Double(f64::NAN.to_bits()))
        .build()
        .unwrap();
    assert_eq!(value.is_system_missing(), true);
}

#[test]
fn test_read_stat_value_is_tagged_missing() {
    let value = ReadStatValue::builder().build().unwrap();
    assert_eq!(value.is_tagged_missing_by_sas(), false);
}

#[test]
fn test_sas_missing_char() {
    let value = ReadStatValue::builder()
        .tags(vec![String::from(".")])
        .build()
        .unwrap();
    assert_eq!(value.is_tagged_missing_by_sas(), true);
}

#[test]
fn test_read_stat_value_is_missing() {
    let value = ReadStatValue::builder()
        .value(ReadStatValueType::Double(f64::NAN.to_bits()))
        .build()
        .unwrap();
    assert_eq!(value.is_missing(), true);
}

#[test]
fn test_read_stat_value_is_not_missing() {
    let value = ReadStatValue::builder()
        .value(ReadStatValueType::Double(1.0_f64.to_bits()))
        .build()
        .unwrap();
    assert_eq!(value.is_missing(), false);
}

#[test]
fn test_read_stat_value_default_is_not_missing() {
    let value = ReadStatValue::builder().build().unwrap();
    assert_eq!(value.is_system_missing(), false);
    assert_eq!(value.is_missing(), false);
}

#[test]
fn test_read_stat_value_empty_string_is_missing() {
    let value = ReadStatValue::new(
        ReadStatType::String,
        Vec::new(),
        ReadStatValueType::String(String::new()),
    );
    assert_eq!(value.is_system_missing(), true);
    assert_eq!(value.is_missing(), true);
    let value = ReadStatValue::new(
        ReadStatType::String,
        Vec::new(),
        ReadStatValueType::String(String::from("text")),
    );
    assert_eq!(value.is_system_missing(), false);
    assert_eq!(value.is_missing(), false);
}

#[test]
fn test_read_stat_value_nan_patterns() {
    let double = |bits: u64| {
        ReadStatValue::new(ReadStatType::Double, Vec::new(), ReadStatValueType::Double(bits))
    };
    assert_eq!(double(f64::NAN.to_bits()).is_system_missing(), true);
    assert_eq!(double((-f64::NAN).to_bits()).is_system_missing(), true);
    assert_eq!(double(0x7ff0_0000_0000_0001).is_system_missing(), true);
    assert_eq!(double(f64::INFINITY.to_bits()).is_system_missing(), false);
    assert_eq!(double(f64::NEG_INFINITY.to_bits()).is_system_missing(), false);
    assert_eq!(double(f64::MAX.to_bits()).is_system_missing(), false);
    assert_eq!(double(0).is_system_missing(), false);
    let float = |bits: u32| {
        ReadStatValue::new(ReadStatType::Float, Vec::new(), ReadStatValueType::Float(bits))
    };
    assert_eq!(float(f32::NAN.to_bits()).is_system_missing(), true);
    assert_eq!(float(f32::INFINITY.to_bits()).is_system_missing(), false);
    assert_eq!(float(1.5_f32.to_bits()).is_system_missing(), false);
    for bits in [0_u64, 1, 0x7ff0_0000_0000_0000, 0x7ff8_0000_0000_0000, 0xfff0_0000_0000_0001] {
        assert_eq!(double(bits).is_system_missing(), f64::from_bits(bits).is_nan());
    }
}

#[test]
fn test_read_stat_value_integers_are_not_system_missing() {
    let value = ReadStatValue::new(ReadStatType::Int32, Vec::new(), ReadStatValueType::Int32(0));
    assert_eq!(value.is_system_missing(), false);
    assert_eq!(value.is_missing(), false);
}

#[test]
fn test_read_stat_value_tagged_is_missing() {
    let value = ReadStatValue::new(
        ReadStatType::Double,
        vec![String::from("\u{2}")],
        ReadStatValueType::Double(1.0_f64.to_bits()),
    );
    assert_eq!(value.is_system_missing(), false);
    assert_eq!(value.is_tagged_missing_by_sas(), true);
    assert_eq!(value.is_missing(), true);
}

#[test]
fn test_read_stat_value_builder_reports_the_first_unset_field() {
    let err = ReadStatValueBuilder { type_: None, tags: None, value: None }.build().unwrap_err();
    assert_eq!(err, BuilderError::UninitializedField("type_"));
    assert_eq!(err.to_string(), "`type_` must be initialized");
    let err = ReadStatValueBuilder { type_: Some(ReadStatType::Int8), tags: None, value: None }
        .tags(Vec::new())
        .build()
        .unwrap_err();
    assert_eq!(err, BuilderError::UninitializedField("value"));
}
