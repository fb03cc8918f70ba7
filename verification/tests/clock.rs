use chrono::{Local, TimeZone, Utc};
use real_time_note_taker::clock::{format_clock, hacked_clock, parse_time_of_day};
use real_time_note_taker::{App, Elapsed, TimeHack, TimeOfDay, Timestamp};
use std::time::{Duration, Instant};

const NO_TIME: Elapsed = Elapsed { secs: 0, nanos: 0 };

#[test]
fn timestamps_are_equal_when_the_instant_is() {
    let a = Timestamp { secs: 10, nanos: 5, offset: 0 };
    let b = Timestamp { secs: 10, nanos: 5, offset: 3600 };
    let c = Timestamp { secs: 10, nanos: 6, offset: 0 };
    let d = Timestamp { secs: 11, nanos: 5, offset: 0 };
    assert_eq!(a, b);
    assert_ne!(a, c);
    assert_ne!(a, d);
}

#[test]
fn seconds_from_midnight_follow_the_offset() {
    let utc = Timestamp { secs: 3 * 86_400 + 3723, nanos: 0, offset: 0 };
    assert_eq!(utc.seconds_from_midnight(), 3723);
    let east = Timestamp { secs: 3 * 86_400 + 3723, nanos: 0, offset: 3600 };
    assert_eq!(east.seconds_from_midnight(), 7323);
    let west = Timestamp { secs: 3 * 86_400 + 3723, nanos: 0, offset: -7200 };
    assert_eq!(west.seconds_from_midnight(), 86_400 + 3723 - 7200);
    let before_epoch = Timestamp { secs: -1, nanos: 0, offset: 0 };
    assert_eq!(before_epoch.seconds_from_midnight(), 86_399);
    let far = Timestamp { secs: i64::MIN, nanos: 0, offset: i32::MIN };
    assert!(far.seconds_from_midnight() < 86_400);
}

#[test]
fn format_clock_writes_two_digits_each() {
    let at = |secs: i64, nanos: u32, offset: i32| format_clock(&Timestamp { secs, nanos, offset });
    assert_eq!(at(0, 0, 0), "00:00:00");
    assert_eq!(at(3723, 0, 0), "01:02:03");
    assert_eq!(at(86_399, 999_999_999, 0), "23:59:59");
    assert_eq!(at(86_400, 0, 0), "00:00:00");
    assert_eq!(at(0, 0, 3600), "01:00:00");
    assert_eq!(at(0, 0, -60), "23:59:00");
    assert_eq!(at(-1, 0, 0), "23:59:59");
    assert_eq!(at(45_296, 0, 0), "12:34:56");
}

#[test]
fn format_clock_shows_a_leap_second_as_sixty() {
    let leap = Timestamp { secs: 86_399, nanos: 1_500_000_000, offset: 0 };
    assert_eq!(format_clock(&leap), "23:59:60");
}

#[test]
fn format_clock_agrees_with_chrono() {
    for secs in [0i64, 1, 59, 60, 3599, 3600, 86_399, 1_700_000_000, 1_723_456_789] {
        for offset in [0, 3600, -18_000, 19_800] {
            let zone = chrono::FixedOffset::east_opt(offset).unwrap();
            let expected = Utc
                .timestamp_opt(secs, 0)
                .unwrap()
                .with_timezone(&zone)
                .format("%H:%M:%S")
                .to_string();
            assert_eq!(format_clock(&Timestamp { secs, nanos: 0, offset }), expected);
        }
    }
}

#[test]
fn parse_time_of_day_reads_hours_minutes_seconds() {
    assert_eq!(
        parse_time_of_day("01:02:03"),
        Some(TimeOfDay { secs: 3723, nanos: 0 })
    );
    assert_eq!(
        parse_time_of_day("00:00:00"),
        Some(TimeOfDay { secs: 0, nanos: 0 })
    );
    assert_eq!(
        parse_time_of_day("23:59:59"),
        Some(TimeOfDay { secs: 86_399, nanos: 0 })
    );
}

#[test]
fn parse_time_of_day_takes_a_fraction() {
    assert_eq!(
        parse_time_of_day("01:02:03.5"),
        Some(TimeOfDay { secs: 3723, nanos: 500_000_000 })
    );
    assert_eq!(
        parse_time_of_day("12:00:00.125"),
        Some(TimeOfDay { secs: 43_200, nanos: 125_000_000 })
    );
}

#[test]
fn parse_time_of_day_rejects_what_is_no_time() {
    assert_eq!(parse_time_of_day(""), None);
    assert_eq!(parse_time_of_day("noon"), None);
    assert_eq!(parse_time_of_day("25:00:00"), None);
    assert_eq!(parse_time_of_day("12:60:00"), None);
    assert_eq!(parse_time_of_day("12:34"), None);
    assert_eq!(parse_time_of_day("01:02:03 pm"), None);
}

#[test]
fn hacked_clock_starts_at_the_base_on_the_day_of_now() {
    let base = TimeOfDay { secs: 3723, nanos: 0 };
    let now = Timestamp { secs: 3 * 86_400 + 50_000, nanos: 123, offset: 0 };
    let hacked = hacked_clock(base, now, NO_TIME);
    assert_eq!(
        (hacked.secs, hacked.nanos, hacked.offset),
        (3 * 86_400 + 3723, 0, 0)
    );
    assert_eq!(hacked.seconds_from_midnight(), 3723);
}

#[test]
fn hacked_clock_takes_the_day_from_the_local_date() {
    // 23:30 UTC on day 3 is 00:30 on day 4, one hour east.
    let now = Timestamp { secs: 3 * 86_400 + 84_600, nanos: 0, offset: 3600 };
    let hacked = hacked_clock(TimeOfDay { secs: 3723, nanos: 0 }, now, NO_TIME);
    assert_eq!(hacked.secs, 4 * 86_400 + 3723 - 3600);
    assert_eq!(hacked.offset, 3600);
    assert_eq!(format_clock(&hacked), "01:02:03");
}

#[test]
fn hacked_clock_adds_what_has_elapsed() {
    let base = TimeOfDay { secs: 3723, nanos: 600_000_000 };
    let now = Timestamp { secs: 86_400, nanos: 0, offset: 0 };
    let hacked = hacked_clock(base, now, Elapsed { secs: 10, nanos: 700_000_000 });
    assert_eq!((hacked.secs, hacked.nanos), (86_400 + 3723 + 11, 300_000_000));
    let next_day = hacked_clock(base, now, Elapsed { secs: 86_400, nanos: 0 });
    assert_eq!((next_day.secs, next_day.nanos), (2 * 86_400 + 3723, 600_000_000));
}

#[test]
fn hacked_clock_stays_within_range() {
    let base = TimeOfDay { secs: 86_399, nanos: 0 };
    let late = Timestamp { secs: i64::MAX, nanos: 0, offset: 0 };
    assert_eq!(
        hacked_clock(base, late, Elapsed { secs: u64::MAX, nanos: 0 }).secs,
        i64::MAX
    );
    let early = Timestamp { secs: i64::MIN, nanos: 0, offset: i32::MAX };
    assert_eq!(hacked_clock(TimeOfDay { secs: 0, nanos: 0 }, early, NO_TIME).secs, i64::MIN);
}

#[test]
fn current_time_at_is_the_system_time_without_a_hack() {
    let app = App::new();
    let now = Timestamp { secs: 1_700_000_000, nanos: 42, offset: 7200 };
    let shown = app.current_time_at(now, Elapsed { secs: 99, nanos: 0 });
    assert_eq!((shown.secs, shown.nanos, shown.offset), (1_700_000_000, 42, 7200));
    assert_eq!(app.time_source(), "System");
}

#[test]
fn current_time_at_is_the_hacked_time_with_a_hack() {
    let mut app = App::new();
    app.time_hack = Some(TimeHack {
        base: TimeOfDay { secs: 3723, nanos: 0 },
        started: Instant::now(),
    });
    let now = Timestamp { secs: 10 * 86_400 + 5, nanos: 0, offset: 0 };
    let shown = app.current_time_at(now, Elapsed { secs: 2, nanos: 0 });
    assert_eq!(shown.secs, 10 * 86_400 + 3725);
    assert_eq!(app.time_source(), "Hacked");
}

#[test]
fn time_hack_shows_the_time_of_day_that_was_set() {
    let mut app = App::new();
    app.time_hack = Some(TimeHack {
        base: TimeOfDay { secs: 3723, nanos: 0 },
        started: Instant::now(),
    });
    let shown = app.current_time();
    let second = shown.seconds_from_midnight();
    assert!(second == 3723 || second == 3724);
    assert!(format_clock(&shown).starts_with("01:02:0"));
}

#[test]
fn current_time_reads_the_system_clock() {
    let app = App::new();
    let before = Utc::now().timestamp();
    let shown = app.current_time();
    let after = Utc::now().timestamp();
    assert!(before <= shown.secs && shown.secs <= after);
    assert!(shown.nanos < 2_000_000_000);
    let local = Local.timestamp_opt(shown.secs, 0).unwrap();
    assert_eq!(shown.offset, local.offset().local_minus_utc());
}

#[test]
fn the_hacked_clock_runs() {
    let mut app = App::new();
    let started = Instant::now();
    app.time_hack = Some(TimeHack { base: TimeOfDay { secs: 3600, nanos: 0 }, started });
    while started.elapsed() < Duration::from_millis(1100) {
        std::hint::spin_loop();
    }
    let shown = app.current_time();
    let second = shown.seconds_from_midnight();
    assert!(second >= 3601 && second <= 3610);
}

#[test]
fn take_readings_reads_no_elapsed_time_without_a_hack() {
    let mut app = App::new();
    app.save_dir = "dir".to_string();
    let readings = app.take_readings();
    assert_eq!(readings.elapsed, NO_TIME);
    assert_eq!(
        readings.save_path,
        format!("dir{}notes.csv", std::path::MAIN_SEPARATOR)
    );
    let now = Utc::now().timestamp();
    assert!((readings.now.secs - now).abs() <= 1);
}

#[test]
fn take_readings_measures_from_the_start_of_the_hack() {
    let mut app = App::new();
    let started = Instant::now();
    app.time_hack = Some(TimeHack { base: TimeOfDay { secs: 0, nanos: 0 }, started });
    while started.elapsed() < Duration::from_millis(1100) {
        std::hint::spin_loop();
    }
    let readings = app.take_readings();
    let measured = readings.started.saturating_duration_since(started);
    assert_eq!(readings.elapsed.secs, measured.as_secs());
    assert_eq!(readings.elapsed.nanos, measured.subsec_nanos());
    assert!(readings.elapsed.secs >= 1);
    assert!(readings.elapsed.nanos < 1_000_000_000);
}
