use chrono::{DateTime, TimeDelta, Utc};
use vitality_bot::clock::{date_label, UtcInstant, WallTime, Zone, MAX_UTC_SECS, MIN_UTC_SECS};

fn at(s: &str) -> UtcInstant {
    UtcInstant::parse_rfc3339(s).expect("valid RFC 3339")
}

fn paris() -> Zone {
    Zone::from_name("Europe/Paris").unwrap()
}

#[test]
fn parses_rfc3339() {
    let t = at("2024-08-03T18:05:00Z");
    assert_eq!(t.secs(), 1722708300);
    assert_eq!(t.nanos(), 0);
    let t = at("2024-08-03T20:05:00.5+02:00");
    assert_eq!(t.secs(), 1722708300);
    assert_eq!(t.nanos(), 500_000_000);
}

#[test]
fn refuses_other_text() {
    assert!(UtcInstant::parse_rfc3339("not a date").is_none());
    assert!(UtcInstant::parse_rfc3339("2024-08-03").is_none());
    assert!(UtcInstant::parse_utc("yesterday").is_none());
}

#[test]
fn zones_by_name() {
    assert_eq!(paris().name(), "Europe/Paris");
    assert!(Zone::from_name("America/New_York").is_some());
    assert!(Zone::from_name("Europe/Pariss").is_none());
    assert!(Zone::from_name("").is_none());
    assert_eq!(paris().duplicate().name(), "Europe/Paris");
}

#[test]
fn wall_clock_in_summer_and_winter() {
    let p = at("2024-08-03T18:05:00Z").to_local(&paris());
    assert_eq!((p.year, p.month, p.day, p.hour, p.minute, p.weekday), (2024, 8, 3, 20, 5, 5));
    let p = at("2024-01-15T23:30:00Z").to_local(&paris());
    assert_eq!((p.year, p.month, p.day, p.hour, p.minute, p.weekday), (2024, 1, 16, 0, 30, 1));
}

#[test]
fn wall_clock_in_new_york() {
    let ny = Zone::from_name("America/New_York").unwrap();
    let p = at("2024-08-03T02:05:00Z").to_local(&ny);
    assert_eq!((p.year, p.month, p.day, p.hour, p.minute, p.weekday), (2024, 8, 2, 22, 5, 4));
}

#[test]
fn local_date_label() {
    assert_eq!(at("2024-01-15T23:30:00Z").local_date_label(&paris()), "2024-01-16");
    assert_eq!(at("2024-08-03T18:05:00Z").local_date_label(&paris()), "2024-08-03");
    let ny = Zone::from_name("America/New_York").unwrap();
    assert_eq!(at("2024-08-03T02:05:00Z").local_date_label(&ny), "2024-08-02");
}

#[test]
fn date_label_matches_chrono_format() {
    for (y, m, d) in [(5, 1, 2), (999, 12, 31), (2024, 2, 29), (-5, 3, 4), (12345, 6, 7), (0, 1, 1)] {
        let w = WallTime { year: y, month: m, day: d, hour: 0, minute: 0, weekday: 0 };
        let expected = chrono::NaiveDate::from_ymd_opt(y, m, d).unwrap().format("%Y-%m-%d").to_string();
        assert_eq!(date_label(&w), expected);
    }
}

#[test]
fn rfc3339_round_trip() {
    let t = at("2024-08-03T18:05:00Z");
    let text = t.to_rfc3339();
    assert_eq!(text, "2024-08-03T18:05:00+00:00");
    let back = UtcInstant::parse_utc(&text).unwrap();
    assert_eq!((back.secs(), back.nanos()), (t.secs(), t.nanos()));
}

#[test]
fn rfc3339_round_trip_with_fractions_and_leap_second() {
    for (secs, nanos) in [(0u64, 1u32), (1_722_708_359, 1_500_000_000), (253_402_300_799, 999_999_999)] {
        let t = UtcInstant::from_unix(secs, nanos).unwrap();
        let back = UtcInstant::parse_utc(&t.to_rfc3339()).unwrap();
        assert_eq!((back.secs(), back.nanos()), (t.secs(), t.nanos()));
    }
}

#[test]
fn from_unix_agrees_with_chrono() {
    let max = MAX_UTC_SECS as u64;
    for (secs, nanos) in [(0u64, 0u32), (59, 1_999_999_999), (58, 1_000_000_000), (59, 2_000_000_000),
        (max, 0), (max + 1, 0), (1_722_708_300, 999_999_999)] {
        let ours = UtcInstant::from_unix(secs, nanos).map(|t| (t.secs(), t.nanos()));
        let theirs = i64::try_from(secs)
            .ok()
            .and_then(|s| DateTime::from_timestamp(s, nanos))
            .map(|d| (d.timestamp(), d.timestamp_subsec_nanos()));
        assert_eq!(ours, theirs, "{} {}", secs, nanos);
    }
    assert!(DateTime::from_timestamp(MIN_UTC_SECS, 0).is_some());
    assert!(DateTime::from_timestamp(MIN_UTC_SECS - 1, 0).is_none());
}

#[test]
fn a_day_has_24_hours() {
    let start = at("2024-03-30T12:00:00Z");
    assert!(at("2024-03-31T12:00:00Z").day_elapsed_since(&start));
    assert!(!at("2024-03-31T11:59:59.999Z").day_elapsed_since(&start));
    assert!(!start.day_elapsed_since(&at("2024-03-31T12:00:00Z")));
}

#[test]
fn day_elapsed_agrees_with_chrono_around_leap_seconds() {
    let pairs = [
        ((86_399u64, 1_000_000_000u32), (0u64, 500_000_000u32)),
        ((172_800, 0), (86_399, 1_000_000_000)),
        ((172_799, 1_000_000_000), (86_399, 1_200_000_000)),
        ((172_800, 100), (86_400, 100)),
    ];
    for ((ls, ln), (es, en)) in pairs {
        let later = UtcInstant::from_unix(ls, ln).unwrap();
        let earlier = UtcInstant::from_unix(es, en).unwrap();
        let l = DateTime::from_timestamp(ls as i64, ln).unwrap();
        let e = DateTime::from_timestamp(es as i64, en).unwrap();
        assert_eq!(later.day_elapsed_since(&earlier), l - e >= TimeDelta::hours(24));
    }
}

#[test]
fn now_is_after_2020() {
    let now = UtcInstant::now().unwrap();
    assert!(now.secs() > 1_577_836_800);
    assert!(now.nanos() < 1_000_000_000);
    let chrono_now = Utc::now().timestamp();
    assert!((chrono_now - now.secs()).abs() < 60);
}
