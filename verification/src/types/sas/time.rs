//! Timestamps: from seconds since the epoch of the format to seconds since
//! the Unix epoch.

use vstd::prelude::*;

verus! {

/// The instant that an RFC 3339 text designates, in whole seconds since
/// 1970-01-01T00:00:00Z, as `chrono` reads the text; `None` for a text that
/// `chrono` does not accept.
pub uninterp spec fn rfc3339_unix_seconds(text: Seq<char>) -> Option<i64>;

/// `chrono::DateTime::parse_from_rfc3339`, with the instant handed out as
/// `chrono::DateTime::timestamp` counts it. The contract gives the result
/// its name and claims nothing else of it.
#[verifier::external_body]
fn parse_rfc3339_seconds(text: &str) -> (r: Option<i64>)
    ensures
        r == rfc3339_unix_seconds(text@),
{
    match chrono::DateTime::parse_from_rfc3339(text) {
        Ok(instant) => Some(instant.timestamp()),
        Err(_) => None,
    }
}

/// `chrono::Duration::days`, read back with `num_seconds`. The contract
/// claims that a day has 86 400 seconds. Beyond the bounds, which are those
/// of a duration of `i64::MAX` milliseconds, `days` panics.
#[verifier::external_body]
fn seconds_in_days(days: i64) -> (r: i64)
    requires
        -106_751_991_167 <= days <= 106_751_991_167,
    ensures
        r == days * 86_400,
{
    chrono::Duration::days(days).num_seconds()
}

/// The greatest timestamp that the format holds.
pub open spec fn max_long() -> int {
    0x7fff_ffff_ffff_ffff
}

/// The least timestamp that the format holds: one below the least 64-bit
/// number.
pub open spec fn min_long() -> int {
    -0x8000_0000_0000_0000 - 1
}

/// `v`, or the bound of the format's range that is nearest to it.
pub open spec fn clamp_long(v: int) -> int {
    if v > max_long() {
        max_long()
    } else if v < min_long() {
        min_long()
    } else {
        v
    }
}

/// The offset of the format's epoch from the Unix epoch, from the two
/// epochs in seconds and the length of the day by which stored values are
/// off.
pub open spec fn offset_of(sas_epoch: int, unix_epoch: int, day: int) -> int {
    sas_epoch - unix_epoch + day
}

/// The Unix timestamp of a timestamp of the format, given the offset.
pub open spec fn unix_from_sas(sas_timestamp: int, offset: int) -> int {
    clamp_long(sas_timestamp - offset)
}

/// The text of the format's epoch.
pub open spec fn sas_epoch_text() -> Seq<char> {
    "1960-01-01T00:00:00Z"@
}

/// The text of the Unix epoch.
pub open spec fn unix_epoch_text() -> Seq<char> {
    "1970-01-01T00:00:00Z"@
}

/// Whether both epochs are read as instants.
pub open spec fn epochs_known() -> bool {
    rfc3339_unix_seconds(sas_epoch_text()) is Some && rfc3339_unix_seconds(unix_epoch_text())
        is Some
}

/// The offset of the format's epoch from the Unix epoch, over the instants
/// that the two epoch texts are read as.
pub open spec fn sas_epoch_offset() -> int {
    offset_of(
        rfc3339_unix_seconds(sas_epoch_text()).unwrap() as int,
        rfc3339_unix_seconds(unix_epoch_text()).unwrap() as int,
        86_400,
    )
}

/// The offset of the format's epoch from the Unix epoch: the seconds from
/// the Unix epoch to the format's epoch, and one day more.
pub fn offset_between(sas_epoch: i64, unix_epoch: i64, day: i64) -> (r: i128)
    ensures
        r == offset_of(sas_epoch as int, unix_epoch as int, day as int),
{
    sas_epoch as i128 - unix_epoch as i128 + day as i128
}

/// The greatest timestamp that the format holds.
pub fn get_max_long() -> (r: i128)
    ensures
        r == max_long(),
{
    0x7fff_ffff_ffff_ffff
}

/// The least timestamp that the format holds.
pub fn get_min_long() -> (r: i128)
    ensures
        r == min_long(),
{
    -0x8000_0000_0000_0000 - 1
}

/// Converts a timestamp of the format to a Unix timestamp, given the
/// offset of the format's epoch: the difference of the two, or the bound of
/// the format's range that is nearest to it.
pub fn sas_to_unix_at(sas_timestamp: i128, epoch_offset: i128) -> (r: i128)
    ensures
        r == unix_from_sas(sas_timestamp as int, epoch_offset as int),
{
    let max_long = get_max_long();
    let min_long = get_min_long();
    match sas_timestamp.checked_sub(epoch_offset) {
        Some(unix_timestamp) => {
            if unix_timestamp > max_long {
                max_long
            } else if unix_timestamp < min_long {
                min_long
            } else {
                unix_timestamp
            }
        },
        None => {
            if epoch_offset > 0 {
                min_long
            } else {
                max_long
            }
        },
    }
}

/// The offset of the format's epoch from the Unix epoch, where both epochs
/// are read as instants.
pub fn try_sas_epoch_offset() -> (r: Option<i128>)
    ensures
        r is Some <==> epochs_known(),
        r is Some ==> r.unwrap() == sas_epoch_offset(),
{
    let sas_epoch = parse_rfc3339_seconds("1960-01-01T00:00:00Z");
    let unix_epoch = parse_rfc3339_seconds("1970-01-01T00:00:00Z");
    match (sas_epoch, unix_epoch) {
        (Some(sas), Some(unix)) => Some(offset_between(sas, unix, seconds_in_days(1))),
        _ => None,
    }
}

/// The offset of the format's epoch from the Unix epoch.
pub fn get_sas_epoch_offset() -> (r: i128)
    requires
        epochs_known(),
    ensures
        r == sas_epoch_offset(),
{
    try_sas_epoch_offset().unwrap()
}

/// Converts a timestamp of the format to a Unix timestamp.
pub fn sas_to_unix(sas_timestamp: i128) -> (r: i128)
    requires
        epochs_known(),
    ensures
        r == unix_from_sas(sas_timestamp as int, sas_epoch_offset()),
{
    let epoch_offset = get_sas_epoch_offset();
    sas_to_unix_at(sas_timestamp, epoch_offset)
}

/// Converts a timestamp of the format to a Unix timestamp where both
/// epochs are read as instants, and gives `None` where one is not.
pub fn checked_sas_to_unix(sas_timestamp: i128) -> (r: Option<i128>)
    ensures
        r is Some <==> epochs_known(),
        r is Some ==> r.unwrap() == unix_from_sas(sas_timestamp as int, sas_epoch_offset()),
{
    match try_sas_epoch_offset() {
        Some(_) => Some(sas_to_unix(sas_timestamp)),
        None => None,
    }
}

/// A converted timestamp lies within the format's range.
pub proof fn lemma_unix_from_sas_in_range(sas_timestamp: int, offset: int)
    ensures
        min_long() <= unix_from_sas(sas_timestamp, offset) <= max_long(),
{
}

/// Where the difference lies within the format's range, the conversion is
/// exact: adding the offset to the result gives the input back.
pub proof fn lemma_unix_from_sas_round_trip(sas_timestamp: int, offset: int)
    requires
        min_long() <= sas_timestamp - offset <= max_long(),
    ensures
        unix_from_sas(sas_timestamp, offset) + offset == sas_timestamp,
{
}

/// With an epoch that lies at or before the Unix epoch, the greatest
/// timestamp is converted to itself.
pub proof fn lemma_max_long_saturates(offset: int)
    requires
        offset <= 0,
    ensures
        unix_from_sas(max_long(), offset) == max_long(),
{
}

/// The least timestamp moved by the offset is converted to the least
/// timestamp, and a timestamp at or below it likewise.
pub proof fn lemma_min_long_is_reached(sas_timestamp: int, offset: int)
    requires
        sas_timestamp <= min_long() + offset,
    ensures
        unix_from_sas(min_long() + offset, offset) == min_long(),
        unix_from_sas(sas_timestamp, offset) == min_long(),
{
}

/// The conversion keeps the order of timestamps.
pub proof fn lemma_unix_from_sas_monotone(a: int, b: int, offset: int)
    requires
        a <= b,
    ensures
        unix_from_sas(a, offset) <= unix_from_sas(b, offset),
{
}

} // verus!
