use chrono::Duration;
use readstat_sas::types::sas::time::{
    checked_sas_to_unix, get_max_long, get_min_long, get_sas_epoch_offset, offset_between,
    sas_to_unix, sas_to_unix_at, try_sas_epoch_offset,
};

#[test]
fn test_offset() {
    assert_eq!(get_sas_epoch_offset(), -((10 * 365 + 2) * 24 * 60 * 60)); // Add 2 days for leap
                                                                          // years
}

#[test]
fn test_sas_to_unix() {
    let sas_timestamp = 0;
    assert_eq!(sas_to_unix(sas_timestamp), ((10 * 365 + 2) * 24 * 60 * 60));
}

#[test]
fn test_sas_to_unix_max() {
    let sas_timestamp = get_max_long();
    assert_eq!(sas_to_unix(sas_timestamp), get_max_long());
}

#[test]
fn test_sas_to_unix_min() {
    let sas_timestamp = get_min_long();
    let timestamp_from_min_long =
        get_min_long() + Duration::days(10 * 365 + 2).num_seconds() as i128;
    println!(
        "n days between sas and getminlong: {}",
        Duration::seconds(
            (sas_to_unix(sas_timestamp) as i128 - timestamp_from_min_long) as i64
        )
        .num_days()
    );
    assert_eq!(sas_to_unix(sas_timestamp), timestamp_from_min_long);
}

#[test]
fn test_sas_to_unix_with_a_given_offset() {
    assert_eq!(sas_to_unix_at(0, -315_532_800), 315_532_800);
    assert_eq!(sas_to_unix_at(1_000, 400), 600);
    assert_eq!(sas_to_unix_at(-1_000, 400), -1_400);
    assert_eq!(sas_to_unix_at(get_max_long(), -1), get_max_long());
    assert_eq!(sas_to_unix_at(get_max_long(), 1), get_max_long() - 1);
    assert_eq!(sas_to_unix_at(get_min_long(), 1), get_min_long());
    assert_eq!(sas_to_unix_at(get_min_long(), -1), get_min_long() + 1);
    assert_eq!(sas_to_unix_at(i128::MAX, -1), get_max_long());
    assert_eq!(sas_to_unix_at(i128::MIN, 1), get_min_long());
    assert_eq!(sas_to_unix_at(i128::MAX, i128::MIN), get_max_long());
    assert_eq!(sas_to_unix_at(i128::MIN, i128::MAX), get_min_long());
}

#[test]
fn test_long_bounds() {
    assert_eq!(get_max_long(), 9_223_372_036_854_775_807);
    assert_eq!(get_min_long(), -9_223_372_036_854_775_809);
    assert_eq!(get_max_long(), i64::MAX as i128);
    assert_eq!(get_min_long(), i64::MIN as i128 - 1);
}

#[test]
fn test_offset_between() {
    assert_eq!(offset_between(-315_619_200, 0, 86_400), -315_532_800);
    assert_eq!(offset_between(10, 4, 1), 7);
    assert_eq!(offset_between(i64::MIN, i64::MAX, i64::MIN), 3 * (i64::MIN as i128) + 1);
}

#[test]
fn test_try_sas_epoch_offset() {
    assert_eq!(try_sas_epoch_offset(), Some(-315_532_800));
    assert_eq!(get_sas_epoch_offset(), -315_532_800);
}

#[test]
fn test_checked_sas_to_unix() {
    assert_eq!(checked_sas_to_unix(0), Some(315_532_800));
    assert_eq!(checked_sas_to_unix(-315_532_800), Some(0));
    assert_eq!(checked_sas_to_unix(1), Some(sas_to_unix(1)));
    assert_eq!(checked_sas_to_unix(get_max_long()), Some(get_max_long()));
    assert_eq!(checked_sas_to_unix(get_min_long() - 315_532_800), Some(get_min_long()));
    assert_eq!(checked_sas_to_unix(get_min_long() - 315_532_801), Some(get_min_long()));
}

#[test]
fn test_sas_to_unix_round_trip_within_bounds() {
    let offset = get_sas_epoch_offset();
    for ts in [0_i128, 1, -1, 1_000_000_000, get_min_long(), get_max_long() + offset] {
        assert_eq!(sas_to_unix(ts) + offset, ts);
    }
}
