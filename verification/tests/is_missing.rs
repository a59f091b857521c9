use readstat_sas::sas::is_missing::{classify_tag, is_tagged_missing};
use readstat_sas::types::ReadStatValue;

fn tagged(tag: &str) -> ReadStatValue {
    ReadStatValue::builder().tags(vec![String::from(tag)]).build().unwrap()
}

#[test]
fn test_is_tagged_missing() {
    let value = ReadStatValue::builder().build().unwrap();
    assert_eq!(is_tagged_missing(&value), false);
}

#[test]
fn test_is_tagged_missing_with_tag_0() {
    let value = tagged("\u{0}");
    assert_eq!(is_tagged_missing(&value), true);
}

#[test]
fn test_is_tagged_missing_with_tag_2() {
    let value = tagged("\u{2}");
    assert_eq!(is_tagged_missing(&value), true);
}

#[test]
fn test_is_tagged_missing_with_tag_28() {
    let value = tagged("\u{1c}");
    assert_eq!(is_tagged_missing(&value), false);
}

#[test]
fn test_is_tagged_missing_with_tag_27() {
    let value = tagged("\u{1b}");
    assert_eq!(is_tagged_missing(&value), true);
}

#[test]
fn test_is_tagged_missing_with_tag_1() {
    let value = tagged("\u{1}");
    assert_eq!(is_tagged_missing(&value), false);
}

#[test]
fn test_is_tagged_missing_with_period() {
    let value = tagged(".");
    assert_eq!(is_tagged_missing(&value), true);
}

#[test]
fn test_is_tagged_missing_with_letters_of_the_tag() {
    assert_eq!(is_tagged_missing(&tagged("_")), false);
    assert_eq!(is_tagged_missing(&tagged("A")), false);
    assert_eq!(is_tagged_missing(&tagged("Z")), false);
    assert_eq!(is_tagged_missing(&tagged("a")), false);
}

#[test]
fn test_is_tagged_missing_with_empty_tag() {
    assert_eq!(is_tagged_missing(&tagged("")), false);
}

#[test]
fn test_is_tagged_missing_reads_the_first_byte_of_the_first_tag() {
    let value = ReadStatValue::builder()
        .tags(vec![String::from("\u{2}Z"), String::from("Z")])
        .build()
        .unwrap();
    assert_eq!(is_tagged_missing(&value), true);
    let value = ReadStatValue::builder()
        .tags(vec![String::from("Z"), String::from("\u{2}")])
        .build()
        .unwrap();
    assert_eq!(is_tagged_missing(&value), false);
    assert_eq!(is_tagged_missing(&tagged("\u{e9}")), false);
}

#[test]
fn test_classify_tag() {
    assert_eq!(classify_tag(None), false);
    assert_eq!(classify_tag(Some(0)), true);
    assert_eq!(classify_tag(Some(1)), false);
    assert_eq!(classify_tag(Some(2)), true);
    assert_eq!(classify_tag(Some(27)), true);
    assert_eq!(classify_tag(Some(28)), false);
    assert_eq!(classify_tag(Some(b'.')), true);
    assert_eq!(classify_tag(Some(b'_')), false);
    assert_eq!(classify_tag(Some(255)), false);
    for tag in 0..=255_u8 {
        let expected = tag == 0 || (2..28).contains(&tag) || tag == 0x2e;
        assert_eq!(classify_tag(Some(tag)), expected);
    }
}
