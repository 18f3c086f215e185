use chrono::TimeZone;
use vstd::arithmetic::div_mod::lemma_mod_multiples_vanish;
use vstd::prelude::*;

verus! {

/// Day number, counted from 1 January of year 1, of 1 January 1970.
pub const UNIX_EPOCH_DAY: i64 = 719_163;

pub const SECONDS_PER_DAY: i64 = 86_400;

/// The first second of the dates that chrono counts: midnight before
/// 1 January of the year -262143, in seconds from 1970.
pub const MIN_SECS: i64 = -8_334_601_228_800;

/// The last second of the dates that chrono counts: the end of 31 December
/// of the year 262142, in seconds from 1970.
pub const MAX_SECS: i64 = 8_210_266_876_799;

/// An instant on the UTC time line: whole seconds since 1970-01-01T00:00:00Z
/// and the nanoseconds into that second. A value of `nanos` from 1_000_000_000
/// on stands for a leap second.
#[derive(Clone, Copy, Debug, PartialEq, Eq, Structural)]
pub struct Timestamp {
    pub secs: i64,
    pub nanos: u32,
}

impl Timestamp {
    /// `self` is not earlier than `other`.
    pub open spec fn at_or_after(self, other: Timestamp) -> bool {
        self.secs > other.secs || (self.secs == other.secs && self.nanos >= other.nanos)
    }

    /// Tells whether the instant can be written in the stored format.
    pub fn is_representable(&self) -> (r: bool)
        ensures
            r == representable(*self),
    {
        if self.secs < MIN_SECS || self.secs > MAX_SECS || self.nanos >= 2_000_000_000 {
            return false;
        }
        if self.nanos < 1_000_000_000 {
            return true;
        }
        let since: i64 = self.secs - MIN_SECS;
        proof {
            lemma_mod_multiples_vanish(138_910_020_480, self.secs as int, 60);
        }
        since % 60 == 59
    }
}

/// The instant lies within the dates that chrono counts, and its nanoseconds
/// are in order: below a second, or below two in the last second of a
/// minute. These are the instants that `chrono::DateTime::from_timestamp`
/// accepts.
pub open spec fn representable(instant: Timestamp) -> bool {
    &&& MIN_SECS <= instant.secs <= MAX_SECS
    &&& instant.nanos < 1_000_000_000 || (instant.nanos < 2_000_000_000 && instant.secs % 60
        == 59)
}

/// The instant `t` may be what a zone makes of the wall-clock reading: the
/// two are less than a day apart and agree in their nanoseconds.
pub open spec fn stands_for(reading: CivilTime, t: Timestamp) -> bool {
    &&& t.nanos == reading.nanos
    &&& -86_400 < t.secs - reading.secs < 86_400
}

/// A reading of a wall clock with no zone attached: seconds counted on that
/// clock from its 1970-01-01 00:00:00, and the nanoseconds into the second.
#[derive(Clone, Copy, Debug, PartialEq, Eq, Structural)]
pub struct CivilTime {
    pub secs: i64,
    pub nanos: u32,
}

/// The instants that a wall-clock reading can stand for in the local zone.
#[derive(Clone, Copy, Debug, PartialEq, Eq, Structural)]
pub enum LocalMapping {
    /// The reading occurs exactly once.
    Single(Timestamp),
    /// The reading occurs twice (clocks were set back); the two instants in
    /// the order in which chrono hands them out.
    Ambiguous(Timestamp, Timestamp),
    /// The reading never occurs (clocks were set forward over it).
    Skipped,
}

/// The instant that `chrono::DateTime::parse_from_rfc3339` reads from a text,
/// `None` where it rejects the text.
pub uninterp spec fn rfc3339_instant(text: Seq<char>) -> Option<Timestamp>;

/// The wall-clock reading that `chrono::NaiveDateTime::parse_from_str` reads
/// from a text under a format, `None` where it rejects the text.
pub uninterp spec fn naive_datetime_of(text: Seq<char>, format: Seq<char>) -> Option<CivilTime>;

/// The day number (1 January of year 1 is day 1) of the date that
/// `chrono::NaiveDate::parse_from_str` reads from a text under a format,
/// `None` where it rejects the text.
pub uninterp spec fn naive_date_of(text: Seq<char>, format: Seq<char>) -> Option<i32>;

/// The text that `chrono::DateTime::to_rfc3339` writes for an instant seen
/// at an offset of so many seconds east of UTC; `None` where chrono has no
/// such date-time.
pub uninterp spec fn rfc3339_of(instant: Timestamp, offset: i32) -> Option<Seq<char>>;

/// Reads the system clock through `chrono::Local::now`. Nothing is claimed of
/// which instant comes back. It is taken from a `chrono::DateTime` by
/// `timestamp()` and `timestamp_subsec_nanos()`, which
/// `chrono::DateTime::from_timestamp` is documented to take back, so it is
/// representable.
#[verifier::external_body]
pub(crate) fn clock_now() -> (r: Timestamp)
    ensures
        representable(r),
{
    let now = chrono::Local::now();
    Timestamp { secs: now.timestamp(), nanos: now.timestamp_subsec_nanos() }
}

/// Calls `chrono::DateTime::parse_from_rfc3339`. The parse depends on the text
/// alone, so its outcome is `rfc3339_instant` of the text: the instant of the
/// parsed date-time as `timestamp()` and `timestamp_subsec_nanos()` give it,
/// which `chrono::DateTime::from_timestamp` is documented to take back.
#[verifier::external_body]
pub(crate) fn parse_rfc3339(text: &str) -> (r: Option<Timestamp>)
    ensures
        r == rfc3339_instant(text@),
        r matches Some(instant) ==> representable(instant),
{
    match chrono::DateTime::parse_from_rfc3339(text) {
        Ok(dt) => Some(Timestamp { secs: dt.timestamp(), nanos: dt.timestamp_subsec_nanos() }),
        Err(_) => None,
    }
}

/// Calls `chrono::NaiveDateTime::parse_from_str`. The parse depends on the
/// text and the format alone, so its outcome is `naive_datetime_of` of the
/// two: the parsed reading counted in seconds and nanoseconds.
#[verifier::external_body]
pub(crate) fn parse_naive_datetime(text: &str, format: &str) -> (r: Option<CivilTime>)
    ensures
        r == naive_datetime_of(text@, format@),
{
    match chrono::NaiveDateTime::parse_from_str(text, format) {
        Ok(dt) => Some(
            CivilTime {
                secs: dt.and_utc().timestamp(),
                nanos: dt.and_utc().timestamp_subsec_nanos(),
            },
        ),
        Err(_) => None,
    }
}

/// Calls `chrono::NaiveDate::parse_from_str`. The parse depends on the text
/// and the format alone, so its outcome is `naive_date_of` of the two: the
/// parsed date as `Datelike::num_days_from_ce` numbers it.
#[verifier::external_body]
pub(crate) fn parse_naive_date(text: &str, format: &str) -> (r: Option<i32>)
    ensures
        r == naive_date_of(text@, format@),
{
    match chrono::NaiveDate::parse_from_str(text, format) {
        Ok(date) => Some(chrono::Datelike::num_days_from_ce(&date)),
        Err(_) => None,
    }
}

/// What holds of every answer of the local zone to a wall-clock reading: each
/// instant in it is the reading less an offset of under a day, with the
/// nanoseconds of the reading, and is representable where those are below a
/// second.
pub open spec fn fits(reading: CivilTime, mapping: LocalMapping) -> bool {
    match mapping {
        LocalMapping::Single(t) => stands_for(reading, t) && (reading.nanos < 1_000_000_000
            ==> representable(t)),
        LocalMapping::Ambiguous(a, b) => stands_for(reading, a) && stands_for(reading, b) && (
        reading.nanos < 1_000_000_000 ==> representable(a) && representable(b)),
        LocalMapping::Skipped => true,
    }
}

/// Calls `chrono::Local.from_local_datetime` on a wall-clock reading. Which
/// instants come back depends on the zone rules of the machine. Each is the
/// reading less an offset of under a day, with the nanoseconds of the
/// reading, and where those are below a second it is a date-time that
/// `chrono::DateTime::from_timestamp` takes back. A reading outside the range
/// of `chrono::NaiveDateTime` maps to `LocalMapping::Skipped`.
#[verifier::external_body]
pub(crate) fn local_mapping(reading: CivilTime) -> (r: LocalMapping)
    ensures
        fits(reading, r),
{
    let Some(utc) = chrono::DateTime::from_timestamp(reading.secs, reading.nanos) else {
        return LocalMapping::Skipped;
    };
    match chrono::Local.from_local_datetime(&utc.naive_utc()) {
        chrono::MappedLocalTime::Single(t) => LocalMapping::Single(
            Timestamp { secs: t.timestamp(), nanos: t.timestamp_subsec_nanos() },
        ),
        chrono::MappedLocalTime::Ambiguous(a, b) => LocalMapping::Ambiguous(
            Timestamp { secs: a.timestamp(), nanos: a.timestamp_subsec_nanos() },
            Timestamp { secs: b.timestamp(), nanos: b.timestamp_subsec_nanos() },
        ),
        chrono::MappedLocalTime::None => LocalMapping::Skipped,
    }
}

/// Asks `chrono::Local` for the offset of the local zone at an instant, in
/// seconds east of UTC. Which offset comes back depends on the zone rules of
/// the machine; it is under a day, as every `chrono::FixedOffset` is. There
/// is one exactly when `chrono::DateTime::from_timestamp` accepts the
/// instant.
#[verifier::external_body]
pub(crate) fn local_offset(instant: Timestamp) -> (r: Option<i32>)
    ensures
        r is Some <==> representable(instant),
        r matches Some(offset) ==> -86_400 < offset < 86_400,
{
    let utc = chrono::DateTime::from_timestamp(instant.secs, instant.nanos)?;
    Some(utc.with_timezone(&chrono::Local).offset().local_minus_utc())
}

/// Calls `chrono::DateTime::to_rfc3339` on an instant seen at an offset. The
/// text depends on the two alone, so it is `rfc3339_of` of them. There is a
/// text exactly when `chrono::DateTime::from_timestamp` accepts the instant
/// and `chrono::FixedOffset::east_opt` the offset.
#[verifier::external_body]
pub(crate) fn rfc3339_text(instant: Timestamp, offset: i32) -> (r: Option<String>)
    ensures
        r matches Some(text) ==> rfc3339_of(instant, offset) == Some(text@),
        r is None ==> rfc3339_of(instant, offset) is None,
        r is Some <==> (representable(instant) && -86_400 < offset && offset < 86_400),
{
    let zone = chrono::FixedOffset::east_opt(offset)?;
    let utc = chrono::DateTime::from_timestamp(instant.secs, instant.nanos)?;
    Some(utc.with_timezone(&zone).to_rfc3339())
}

/// `text` is the instant written in the strict format at some offset.
pub open spec fn is_text_of(text: Seq<char>, instant: Timestamp) -> bool {
    exists|offset: i32|
        -86_400 < offset < 86_400 && #[trigger] rfc3339_of(instant, offset) == Some(text)
}

/// Writes an instant in the strict format, at the offset that the local zone
/// has at that instant. There is a text exactly for a representable instant.
pub fn rfc3339_local(instant: Timestamp) -> (r: Option<String>)
    ensures
        r is Some <==> representable(instant),
        r matches Some(text) ==> is_text_of(text@, instant),
{
    match local_offset(instant) {
        Some(offset) => rfc3339_text(instant, offset),
        None => None,
    }
}

/// The instant chosen for a wall-clock reading: the only one, or the first of
/// the two that chrono hands out; none where the reading never occurs.
pub open spec fn spec_resolve_local(mapping: LocalMapping) -> Option<Timestamp> {
    match mapping {
        LocalMapping::Single(t) => Some(t),
        LocalMapping::Ambiguous(first, _) => Some(first),
        LocalMapping::Skipped => None,
    }
}

#[verifier::when_used_as_spec(spec_resolve_local)]
pub fn resolve_local(mapping: LocalMapping) -> (r: Option<Timestamp>)
    ensures
        r == spec_resolve_local(mapping),
{
    match mapping {
        LocalMapping::Single(t) => Some(t),
        LocalMapping::Ambiguous(first, _) => Some(first),
        LocalMapping::Skipped => None,
    }
}

/// The wall-clock reading 00:00:00 on the day with the given day number.
pub open spec fn spec_midnight_of(day: i32) -> CivilTime {
    CivilTime { secs: ((day - UNIX_EPOCH_DAY) * SECONDS_PER_DAY) as i64, nanos: 0 }
}

#[verifier::when_used_as_spec(spec_midnight_of)]
pub fn midnight_of(day: i32) -> (r: CivilTime)
    ensures
        r == spec_midnight_of(day),
{
    let days: i64 = day as i64 - UNIX_EPOCH_DAY;
    CivilTime { secs: days * SECONDS_PER_DAY, nanos: 0 }
}

/// What is made of the zone's answer to a wall-clock reading: the instant
/// chosen from the answer, unless the reading is within a leap second and the
/// instant could not be written in the stored format.
pub open spec fn spec_settle(reading: CivilTime, mapping: LocalMapping) -> Option<Timestamp> {
    match spec_resolve_local(mapping) {
        Some(t) => if reading.nanos < 1_000_000_000 || representable(t) {
            Some(t)
        } else {
            None
        },
        None => None,
    }
}

#[verifier::when_used_as_spec(spec_settle)]
pub fn settle(reading: CivilTime, mapping: LocalMapping) -> (r: Option<Timestamp>)
    ensures
        r == spec_settle(reading, mapping),
{
    match resolve_local(mapping) {
        Some(t) => if reading.nanos < 1_000_000_000 || t.is_representable() {
            Some(t)
        } else {
            None
        },
        None => None,
    }
}

/// `r` may be the instant that a wall-clock reading means in the local zone:
/// it is what is made of some answer that fits the reading.
pub open spec fn may_mean(reading: CivilTime, r: Option<Timestamp>) -> bool {
    exists|mapping: LocalMapping|
        fits(reading, mapping) && r == #[trigger] spec_settle(reading, mapping)
}

/// An instant that a reading may mean is representable and less than a day
/// from the reading.
pub proof fn lemma_may_mean(reading: CivilTime, t: Timestamp)
    requires
        may_mean(reading, Some(t)),
    ensures
        representable(t),
        stands_for(reading, t),
{
}

} // verus!
