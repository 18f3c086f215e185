use taskboard::time::{midnight_of, resolve_local, CivilTime, LocalMapping, Timestamp};
use taskboard::utils::{db_timestamp_to_local_dt, deadline_reading, str_to_local_dt};

fn shown_locally(t: Timestamp) -> String {
    chrono::DateTime::from_timestamp(t.secs, t.nanos)
        .unwrap()
        .with_timezone(&chrono::Local)
        .format("%d/%m/%Y %H:%M")
        .to_string()
}

#[test]
fn midnight_of_the_epoch_day_is_zero() {
    assert_eq!(midnight_of(719_163), CivilTime { secs: 0, nanos: 0 });
}

#[test]
fn midnight_counts_days_in_seconds() {
    assert_eq!(midnight_of(719_164), CivilTime { secs: 86_400, nanos: 0 });
    assert_eq!(midnight_of(719_162), CivilTime { secs: -86_400, nanos: 0 });
    assert_eq!(midnight_of(0).secs, -719_163 * 86_400);
    assert_eq!(midnight_of(i32::MAX).secs, (i32::MAX as i64 - 719_163) * 86_400);
    assert_eq!(midnight_of(i32::MIN).secs, (i32::MIN as i64 - 719_163) * 86_400);
}

#[test]
fn resolve_local_takes_the_only_or_the_first_instant() {
    let a = Timestamp { secs: 1, nanos: 2 };
    let b = Timestamp { secs: 3, nanos: 4 };
    assert_eq!(resolve_local(LocalMapping::Single(a)), Some(a));
    assert_eq!(resolve_local(LocalMapping::Ambiguous(a, b)), Some(a));
    assert_eq!(resolve_local(LocalMapping::Ambiguous(b, a)), Some(b));
    assert_eq!(resolve_local(LocalMapping::Skipped), None);
}

#[test]
fn deadline_reading_reads_day_and_time() {
    // 25 December 2030, 10:00, as seconds on the wall clock.
    let days = 22_273_i64; // days from 1 January 1970 to 25 December 2030
    assert_eq!(
        deadline_reading("25/12/2030 10:00"),
        Some(CivilTime { secs: days * 86_400 + 10 * 3_600, nanos: 0 })
    );
}

#[test]
fn deadline_reading_reads_a_day_as_its_midnight() {
    assert_eq!(
        deadline_reading("25/12/2030"),
        Some(CivilTime { secs: 22_273 * 86_400, nanos: 0 })
    );
    assert_eq!(deadline_reading("01/01/1970"), Some(CivilTime { secs: 0, nanos: 0 }));
}

#[test]
fn deadline_reading_rejects_other_texts() {
    assert_eq!(deadline_reading(""), None);
    assert_eq!(deadline_reading("tomorrow"), None);
    assert_eq!(deadline_reading("2030-12-25 10:00"), None);
    assert_eq!(deadline_reading("32/12/2030"), None);
    assert_eq!(deadline_reading("25/12/2030 25:00"), None);
    assert_eq!(deadline_reading("25/12/2030 10:00:00"), None);
}

#[test]
fn typed_deadline_shows_as_typed() {
    let t = str_to_local_dt("25/12/2030 10:00").unwrap();
    assert_eq!(shown_locally(t), "25/12/2030 10:00");
}

#[test]
fn typed_day_shows_as_its_midnight() {
    let t = str_to_local_dt("25/12/2030").unwrap();
    assert_eq!(shown_locally(t), "25/12/2030 00:00");
}

#[test]
fn typed_nonsense_is_no_deadline() {
    assert_eq!(str_to_local_dt(""), None);
    assert_eq!(str_to_local_dt("soon"), None);
    assert_eq!(str_to_local_dt("31/02/2030 10:00"), None);
}

#[test]
fn strict_timestamps_keep_their_instant() {
    assert_eq!(
        db_timestamp_to_local_dt("1970-01-01T00:00:10+00:00"),
        Some(Timestamp { secs: 10, nanos: 0 })
    );
    assert_eq!(
        db_timestamp_to_local_dt("1970-01-01T01:00:00+01:00"),
        Some(Timestamp { secs: 0, nanos: 0 })
    );
    assert_eq!(
        db_timestamp_to_local_dt("2030-12-25T10:00:00.250-02:00"),
        Some(Timestamp { secs: 22_273 * 86_400 + 12 * 3_600, nanos: 250_000_000 })
    );
    assert_eq!(
        db_timestamp_to_local_dt("2030-12-25T10:00:00Z"),
        Some(Timestamp { secs: 22_273 * 86_400 + 10 * 3_600, nanos: 0 })
    );
}

#[test]
fn legacy_timestamps_are_read_in_the_local_zone() {
    let t = db_timestamp_to_local_dt("2030-12-25 10:00:00").unwrap();
    assert_eq!(shown_locally(t), "25/12/2030 10:00");
}

#[test]
fn unreadable_timestamps_give_nothing() {
    assert_eq!(db_timestamp_to_local_dt(""), None);
    assert_eq!(db_timestamp_to_local_dt("yesterday"), None);
    assert_eq!(db_timestamp_to_local_dt("25/12/2030 10:00"), None);
    assert_eq!(db_timestamp_to_local_dt("2030-13-25 10:00:00"), None);
}

#[test]
fn the_range_is_that_of_chrono() {
    assert_eq!(taskboard::time::MIN_SECS, chrono::DateTime::<chrono::Utc>::MIN_UTC.timestamp());
    assert_eq!(taskboard::time::MAX_SECS, chrono::DateTime::<chrono::Utc>::MAX_UTC.timestamp());
}

#[test]
fn representable_is_what_chrono_accepts() {
    let min = taskboard::time::MIN_SECS;
    let max = taskboard::time::MAX_SECS;
    let cases: [(i64, u32); 22] = [
        (0, 0),
        (0, 999_999_999),
        (0, 1_000_000_000),
        (59, 1_000_000_000),
        (59, 1_999_999_999),
        (59, 2_000_000_000),
        (60, 1_000_000_000),
        (119, 1_500_000_000),
        (-1, 1_000_000_000),
        (-2, 1_000_000_000),
        (-61, 1_000_000_000),
        (-60, 1_000_000_000),
        (min, 0),
        (min - 1, 0),
        (min + 59, 1_000_000_000),
        (max, 999_999_999),
        (max, 1_999_999_999),
        (max + 1, 0),
        (max - 60, 1_000_000_000),
        (i64::MIN, 0),
        (i64::MAX, 0),
        (1_700_000_000, u32::MAX),
    ];
    for (secs, nanos) in cases {
        let ours = Timestamp { secs, nanos }.is_representable();
        let theirs = chrono::DateTime::from_timestamp(secs, nanos).is_some();
        assert_eq!(ours, theirs, "secs {secs}, nanos {nanos}");
    }
}

#[test]
fn representable_values() {
    assert!(Timestamp { secs: 0, nanos: 0 }.is_representable());
    assert!(Timestamp { secs: -1, nanos: 1_000_000_000 }.is_representable());
    assert!(!Timestamp { secs: 0, nanos: 1_000_000_000 }.is_representable());
    assert!(!Timestamp { secs: 59, nanos: 2_000_000_000 }.is_representable());
    assert!(Timestamp { secs: -8_334_601_228_800, nanos: 0 }.is_representable());
    assert!(!Timestamp { secs: -8_334_601_228_801, nanos: 0 }.is_representable());
    assert!(Timestamp { secs: 8_210_266_876_799, nanos: 0 }.is_representable());
    assert!(!Timestamp { secs: 8_210_266_876_800, nanos: 0 }.is_representable());
}

#[test]
fn rfc3339_local_writes_the_instant() {
    let t = Timestamp { secs: 1_700_000_000, nanos: 250_000_000 };
    let text = taskboard::time::rfc3339_local(t).unwrap();
    let back = chrono::DateTime::parse_from_rfc3339(&text).unwrap();
    assert_eq!(back.timestamp(), 1_700_000_000);
    assert_eq!(back.timestamp_subsec_nanos(), 250_000_000);
    assert_eq!(text, chrono::DateTime::from_timestamp(1_700_000_000, 250_000_000)
        .unwrap()
        .with_timezone(&chrono::Local)
        .to_rfc3339());
}

#[test]
fn rfc3339_local_has_no_text_out_of_range() {
    assert_eq!(taskboard::time::rfc3339_local(Timestamp { secs: i64::MAX, nanos: 0 }), None);
    assert_eq!(taskboard::time::rfc3339_local(Timestamp { secs: 0, nanos: 1_000_000_000 }), None);
    assert!(taskboard::time::rfc3339_local(Timestamp { secs: taskboard::time::MIN_SECS, nanos: 0 })
        .is_some());
    assert!(taskboard::time::rfc3339_local(Timestamp { secs: taskboard::time::MAX_SECS, nanos: 0 })
        .is_some());
}

#[test]
fn settle_takes_the_only_or_the_first_instant() {
    let reading = CivilTime { secs: 1_000, nanos: 5 };
    let a = Timestamp { secs: 4_600, nanos: 5 };
    let b = Timestamp { secs: 1_000, nanos: 5 };
    assert_eq!(taskboard::time::settle(reading, LocalMapping::Single(a)), Some(a));
    assert_eq!(taskboard::time::settle(reading, LocalMapping::Ambiguous(a, b)), Some(a));
    assert_eq!(taskboard::time::settle(reading, LocalMapping::Ambiguous(b, a)), Some(b));
    assert_eq!(taskboard::time::settle(reading, LocalMapping::Skipped), None);
}

#[test]
fn settle_drops_a_leap_instant_that_cannot_be_written() {
    let reading = CivilTime { secs: 59, nanos: 1_000_000_000 };
    let fine = Timestamp { secs: 3_659, nanos: 1_000_000_000 };
    let odd = Timestamp { secs: 3_640, nanos: 1_000_000_000 };
    assert_eq!(taskboard::time::settle(reading, LocalMapping::Single(fine)), Some(fine));
    assert_eq!(taskboard::time::settle(reading, LocalMapping::Single(odd)), None);
    assert_eq!(taskboard::time::settle(reading, LocalMapping::Ambiguous(odd, fine)), None);
    assert_eq!(taskboard::time::settle(reading, LocalMapping::Ambiguous(fine, odd)), Some(fine));
}

#[test]
fn settle_keeps_what_the_zone_gave_for_a_plain_reading() {
    let reading = CivilTime { secs: 10, nanos: 0 };
    let t = Timestamp { secs: 7_210, nanos: 0 };
    assert_eq!(taskboard::time::settle(reading, LocalMapping::Single(t)), Some(t));
}

#[test]
fn a_typed_deadline_is_less_than_a_day_from_its_reading() {
    let reading = deadline_reading("25/12/2030 10:00").unwrap();
    let t = str_to_local_dt("25/12/2030 10:00").unwrap();
    assert_eq!(t.nanos, reading.nanos);
    assert!((t.secs - reading.secs).abs() < 86_400);
    assert!(t.is_representable());
}

#[test]
fn a_legacy_leap_second_is_read_or_refused_but_never_unwritable() {
    match db_timestamp_to_local_dt("2016-12-31 23:59:60") {
        Some(t) => {
            assert!(t.is_representable());
            assert_eq!(t.nanos, 1_000_000_000);
        }
        None => {}
    }
}
