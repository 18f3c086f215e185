use crate::time::{local_mapping, may_mean, midnight_of, naive_date_of, naive_datetime_of,
    parse_naive_date, parse_naive_datetime, parse_rfc3339, representable, rfc3339_instant, settle,
    spec_midnight_of, stands_for, CivilTime, Timestamp};
use vstd::prelude::*;

verus! {

/// The format in which a deadline is typed with a time of day.
pub open spec fn deadline_format() -> Seq<char> {
    "%d/%m/%Y %H:%M"@
}

/// The format in which a deadline is typed as a day alone.
pub open spec fn day_format() -> Seq<char> {
    "%d/%m/%Y"@
}

/// The format without zone in which older stores hold their timestamps.
pub open spec fn legacy_format() -> Seq<char> {
    "%Y-%m-%d %H:%M:%S"@
}

/// What the text of a stored timestamp settles by itself. `Some(Some(t))`: it
/// is in the strict format and means the instant `t`. `Some(None)`: it is in
/// neither format. `None`: it is a wall-clock reading in the legacy format,
/// and the local zone decides what instant it means, if any.
pub open spec fn settled_instant(text: Seq<char>) -> Option<Option<Timestamp>> {
    if rfc3339_instant(text) is Some {
        Some(rfc3339_instant(text))
    } else if naive_datetime_of(text, legacy_format()) is None {
        Some(None)
    } else {
        None
    }
}

/// The wall-clock reading that a typed deadline names: day, month, year and
/// a time of day, or the day alone, which stands for its midnight.
pub open spec fn spec_deadline_reading(text: Seq<char>) -> Option<CivilTime> {
    match naive_datetime_of(text, deadline_format()) {
        Some(reading) => Some(reading),
        None => match naive_date_of(text, day_format()) {
            Some(day) => Some(spec_midnight_of(day)),
            None => None,
        },
    }
}

/// Reads a typed deadline as a wall-clock reading.
pub fn deadline_reading(s: &str) -> (r: Option<CivilTime>)
    ensures
        r == spec_deadline_reading(s@),
{
    if let Some(reading) = parse_naive_datetime(s, "%d/%m/%Y %H:%M") {
        return Some(reading);
    }
    if let Some(day) = parse_naive_date(s, "%d/%m/%Y") {
        return Some(midnight_of(day));
    }
    None
}

/// `r` may be what reading a typed deadline gives: nothing for a text in
/// neither format, else what the reading may mean in the local zone.
pub open spec fn typed_as(text: Seq<char>, r: Option<Timestamp>) -> bool {
    match spec_deadline_reading(text) {
        Some(reading) => may_mean(reading, r),
        None => r is None,
    }
}

/// Reads a deadline as typed. The reading is taken in the local zone; of two
/// instants the first that chrono hands out is chosen.
///
/// A text in neither format gives `None`. So does a reading that the local
/// zone skips. Which instant a reading means is left to the zone rules of the
/// machine; whichever it is, it is less than a day from the reading, and it
/// can be written in the stored format.
pub fn str_to_local_dt(s: &str) -> (r: Option<Timestamp>)
    ensures
        typed_as(s@, r),
        r matches Some(instant) ==> representable(instant) && stands_for(
            spec_deadline_reading(s@)->0,
            instant,
        ),
{
    match deadline_reading(s) {
        Some(reading) => settle(reading, local_mapping(reading)),
        None => None,
    }
}

/// `r` may be what reading a stored timestamp gives. A text in the strict
/// format gives its instant. A text in the legacy format gives what its
/// reading may mean in the local zone. Any other text gives nothing. An
/// instant that was read is representable.
pub open spec fn reads_as(text: Seq<char>, r: Option<Timestamp>) -> bool {
    &&& match rfc3339_instant(text) {
        Some(instant) => r == Some(instant),
        None => match naive_datetime_of(text, legacy_format()) {
            Some(reading) => may_mean(reading, r),
            None => r is None,
        },
    }
    &&& r matches Some(instant) ==> representable(instant)
}

/// Reads a stored timestamp: in the strict format with its own offset, or
/// else in the legacy format as a wall-clock reading of the local zone (of
/// two instants the first that chrono hands out).
///
/// Wherever the text settles the outcome, that is the outcome. `None` means
/// that the text cannot be read. An instant that was read can be written
/// again in the stored format; one read from the legacy format is less than
/// a day from its reading.
pub fn db_timestamp_to_local_dt(dt_str: &str) -> (r: Option<Timestamp>)
    ensures
        reads_as(dt_str@, r),
        settled_instant(dt_str@) matches Some(settled) ==> r == settled,
        r matches Some(instant) ==> (rfc3339_instant(dt_str@) is None ==> stands_for(
            naive_datetime_of(dt_str@, legacy_format())->0,
            instant,
        )),
{
    match parse_rfc3339(dt_str) {
        Some(instant) => Some(instant),
        None => match parse_naive_datetime(dt_str, "%Y-%m-%d %H:%M:%S") {
            Some(reading) => settle(reading, local_mapping(reading)),
            None => None,
        },
    }
}

} // verus!
