use timestamps::calendar::{wall_from_local_secs, WallClock};
use timestamps::decimal::i64_to_string;
use timestamps::engine::{derive_epoch_seconds, format_wall, parse_input};
use timestamps::snapshot::{epoch_floor_of_span, ClockSnapshot};
use timestamps::style::TimeFormatStyle;

#[test]
fn snapshot_round_trip_truncates_to_minute() {
    // captured 30 seconds into the minute of 2022-04-23T18:00 UTC
    let snap = ClockSnapshot::from_parts(1650736830, 0).unwrap();
    assert_eq!(snap.utc_offset_label, "UTC+0000");
    let input = snap.default_input();
    assert_eq!(input, "2022-04-23T18:00");
    let rederived = derive_epoch_seconds(&input, snap.offset_secs).unwrap();
    assert_eq!(rederived, snap.captured_at - 30);
}

#[test]
fn snapshot_round_trip_exact_on_whole_minute() {
    let snap = ClockSnapshot::from_parts(0, -5400).unwrap();
    assert_eq!(snap.utc_offset_label, "UTC-0130");
    let input = snap.default_input();
    assert_eq!(input, "1969-12-31T22:30");
    let rederived = derive_epoch_seconds(&input, snap.offset_secs).unwrap();
    assert_eq!(rederived, snap.captured_at);
}

#[test]
fn offset_labels() {
    assert_eq!(ClockSnapshot::from_parts(0, 7200).unwrap().utc_offset_label, "UTC+0200");
    assert_eq!(ClockSnapshot::from_parts(0, 19800).unwrap().utc_offset_label, "UTC+0530");
    assert_eq!(ClockSnapshot::from_parts(0, -3600).unwrap().utc_offset_label, "UTC-0100");
    assert_eq!(ClockSnapshot::from_parts(0, 86399).unwrap().utc_offset_label, "UTC+2359");
}

#[test]
fn snapshot_rejects_unusable_parts() {
    assert!(ClockSnapshot::from_parts(0, 86400).is_none());
    assert!(ClockSnapshot::from_parts(0, -86400).is_none());
    assert!(ClockSnapshot::from_parts(i64::MAX, 0).is_none());
    assert!(ClockSnapshot::from_parts(i64::MIN, 0).is_none());
    // one second before 0000-01-01T00:00 local, and the second after the
    // last minute of 9999
    assert!(ClockSnapshot::from_parts(-62167219201, 0).is_none());
    assert!(ClockSnapshot::from_parts(253402300800, 0).is_none());
    assert!(ClockSnapshot::from_parts(-62167219200, 0).is_some());
    assert!(ClockSnapshot::from_parts(253402300799, 0).is_some());
}

#[test]
fn epoch_floor_rounds_toward_the_past() {
    assert_eq!(epoch_floor_of_span(false, 1650736830, 0), Some(1650736830));
    assert_eq!(epoch_floor_of_span(false, 5, 999_999_999), Some(5));
    assert_eq!(epoch_floor_of_span(false, 0, 0), Some(0));
    // a clock 0.000000001 s before the epoch stands in second -1
    assert_eq!(epoch_floor_of_span(true, 0, 1), Some(-1));
    assert_eq!(epoch_floor_of_span(true, 0, 0), Some(0));
    assert_eq!(epoch_floor_of_span(true, 30, 0), Some(-30));
    assert_eq!(epoch_floor_of_span(true, 59, 500_000_000), Some(-60));
    assert_eq!(epoch_floor_of_span(false, 400_000_000_001, 0), None);
    assert_eq!(epoch_floor_of_span(true, u64::MAX, 0), None);
}

#[test]
fn capture_reads_a_usable_clock() {
    let snap = ClockSnapshot::capture().unwrap();
    assert!(snap.offset_secs > -86400 && snap.offset_secs < 86400);
    let label = &snap.utc_offset_label;
    assert_eq!(label.len(), 8);
    assert!(label.starts_with("UTC"));
    assert!(label[3..4] == *"+" || label[3..4] == *"-");
    assert!(label[4..].chars().all(|c| c.is_ascii_digit()));
    // the default input re-derives the captured instant at minute precision
    let input = snap.default_input();
    let rederived = derive_epoch_seconds(&input, snap.offset_secs).unwrap();
    let local = snap.captured_at + snap.offset_secs as i64;
    assert_eq!(rederived, snap.captured_at - local.rem_euclid(60));
}

#[test]
fn initial_timestamp_defaults_to_fulldatetime() {
    let snap = ClockSnapshot::from_parts(1650736830, 7200).unwrap();
    let initial = snap.initial_timestamp();
    assert_eq!(initial.epoch_seconds, 1650736830);
    assert_eq!(initial.style, TimeFormatStyle::FullDateTime);
}

#[test]
fn wall_from_local_secs_truncates() {
    assert_eq!(
        wall_from_local_secs(-62167219200),
        WallClock { year: 0, month: 1, day: 1, hour: 0, minute: 0 }
    );
    assert_eq!(
        wall_from_local_secs(59),
        WallClock { year: 1970, month: 1, day: 1, hour: 0, minute: 0 }
    );
    assert_eq!(
        wall_from_local_secs(61),
        WallClock { year: 1970, month: 1, day: 1, hour: 0, minute: 1 }
    );
    assert_eq!(
        wall_from_local_secs(1650736830),
        WallClock { year: 2022, month: 4, day: 23, hour: 18, minute: 0 }
    );
}

#[test]
fn format_wall_zero_pads() {
    let w = WallClock { year: 33, month: 1, day: 2, hour: 3, minute: 4 };
    let s = format_wall(&w);
    assert_eq!(s, "0033-01-02T03:04");
    assert_eq!(parse_input(&s).unwrap(), w);
}

#[test]
fn decimal_renderings() {
    assert_eq!(i64_to_string(0), "0");
    assert_eq!(i64_to_string(7), "7");
    assert_eq!(i64_to_string(-1), "-1");
    assert_eq!(i64_to_string(-60), "-60");
    assert_eq!(i64_to_string(1650736800), "1650736800");
    assert_eq!(i64_to_string(i64::MAX), "9223372036854775807");
    assert_eq!(i64_to_string(i64::MIN), "-9223372036854775808");
}
