use readstat_sas::types::sas::charset::{build_charset_lookup, resolve_charset};
use readstat_sas::types::SasStringEncoding;

#[test]
fn test_charset_lookup_of_listed_codes() {
    let lookup = build_charset_lookup();
    assert_eq!(lookup.get(&62).map(String::as_str), Some("WINDOWS-1252"));
    assert_eq!(lookup.get(&20).map(String::as_str), Some("UTF-8"));
    assert_eq!(lookup.get(&123).map(String::as_str), Some("BIG-5"));
    assert_eq!(lookup.get(&28).map(String::as_str), Some("US-ASCII"));
    assert_eq!(lookup.get(&248).map(String::as_str), Some("SHIFT_JISX0213"));
    assert_eq!(lookup.get(&136), lookup.get(&141));
    assert_eq!(lookup.get(&125), lookup.get(&205));
}

#[test]
fn test_charset_lookup_of_default_codes() {
    let lookup = build_charset_lookup();
    let default = SasStringEncoding::default().to_string();
    assert_eq!(default, "WINDOWS-1252");
    assert_eq!(lookup.get(&0), Some(&default));
    assert_eq!(lookup.get(&204), Some(&default));
}

#[test]
fn test_charset_lookup_of_unlisted_codes() {
    let lookup = build_charset_lookup();
    assert_eq!(lookup.get(&5), None);
    assert_eq!(lookup.get(&1), None);
    assert_eq!(lookup.get(&38), None);
    assert_eq!(lookup.get(&74), None);
    assert_eq!(lookup.get(&249), None);
    assert_eq!(lookup.get(&u32::MAX), None);
    assert_eq!(lookup.len(), 75);
}

#[test]
fn test_resolve_charset() {
    assert_eq!(resolve_charset(62), Some(String::from("WINDOWS-1252")));
    assert_eq!(resolve_charset(0), Some(String::from("WINDOWS-1252")));
    assert_eq!(resolve_charset(204), Some(String::from("WINDOWS-1252")));
    assert_eq!(resolve_charset(5), None);
    let lookup = build_charset_lookup();
    for code in 0..=300_u32 {
        assert_eq!(resolve_charset(code).as_ref(), lookup.get(&code));
    }
}
