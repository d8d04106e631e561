use desk_hud::text::{chars_of, push_decimal, trim};
use desk_hud::time::{
    fmt_resets_at, fmt_resets_at_offset, fmt_resets_in, fmt_resets_in_at, fmt_seconds,
    local_reset_time_text, local_today, reset_time_text,
};

#[test]
fn fmt_seconds_minutes_only() {
    assert_eq!(fmt_seconds(0), "0m");
    assert_eq!(fmt_seconds(59), "0m");
    assert_eq!(fmt_seconds(60), "1m");
    assert_eq!(fmt_seconds(3599), "59m");
}

#[test]
fn fmt_seconds_hours_and_minutes() {
    assert_eq!(fmt_seconds(3600), "1h 0m");
    assert_eq!(fmt_seconds(3725), "1h 2m");
    assert_eq!(fmt_seconds(90061), "25h 1m");
    assert_eq!(fmt_seconds(18000), "5h 0m");
}

#[test]
fn decimal_rendering() {
    let mut s = String::from("n=");
    push_decimal(&mut s, 0);
    assert_eq!(s, "n=0");
    let mut t = String::new();
    push_decimal(&mut t, u64::MAX);
    assert_eq!(t, u64::MAX.to_string());
}

#[test]
fn trim_removes_unicode_white_space() {
    assert_eq!(trim("  key \n"), "key");
    assert_eq!(trim("\u{3000}\u{a0}x y\u{2028}"), "x y");
    assert_eq!(trim(" \t "), "");
    assert_eq!(trim(""), "");
    assert_eq!(trim("ab"), "ab");
}

#[test]
fn trim_twice_is_trim_once() {
    for s in ["  a b  ", "\n\t", "x", " \u{85}y\u{200a}"] {
        assert_eq!(trim(&trim(s)), trim(s));
    }
}

#[test]
fn chars_of_keeps_order() {
    assert_eq!(chars_of("héllo"), vec!['h', 'é', 'l', 'l', 'o']);
}

// 2024-01-01T00:00:00Z
const NEW_YEAR: i64 = 1_704_067_200;

#[test]
fn resets_in_counts_down() {
    assert_eq!(fmt_resets_in_at("2024-01-01T00:00:00Z", NEW_YEAR - 3725, 0), "1h 2m");
    assert_eq!(fmt_resets_in_at("2024-01-01T01:00:00+01:00", NEW_YEAR - 90, 0), "1m");
    // whole seconds are truncated: 59.5 s left shows 0m
    assert_eq!(fmt_resets_in_at("2024-01-01T00:00:00Z", NEW_YEAR - 60, 500_000_000), "0m");
}

#[test]
fn resets_in_after_reset_is_zero() {
    assert_eq!(fmt_resets_in_at("2024-01-01T00:00:00Z", NEW_YEAR + 10, 0), "0m");
    assert_eq!(fmt_resets_in_at("2024-01-01T00:00:00Z", NEW_YEAR, 0), "0m");
}

#[test]
fn resets_in_keeps_unparsable_text() {
    assert_eq!(fmt_resets_in_at("tomorrow", NEW_YEAR, 0), "tomorrow");
    assert_eq!(fmt_resets_in("not a date"), "not a date");
}

#[test]
fn resets_in_now_is_a_duration() {
    let s = fmt_resets_in("2000-01-01T00:00:00Z");
    assert_eq!(s, "0m");
}

#[test]
fn resets_at_weekday_and_time() {
    assert_eq!(fmt_resets_at_offset("2024-01-01T13:45:10Z", 0), "Mon 13:45");
    assert_eq!(fmt_resets_at_offset("2024-01-01T13:45:10Z", 3600), "Mon 14:45");
    assert_eq!(fmt_resets_at_offset("2024-01-01T00:30:00Z", -3600), "Sun 23:30");
    assert_eq!(fmt_resets_at_offset("2024-01-04T08:05:00+02:00", 0), "Thu 06:05");
}

#[test]
fn resets_at_keeps_unparsable_text() {
    assert_eq!(fmt_resets_at_offset("2024-13-01", 0), "2024-13-01");
    assert_eq!(fmt_resets_at("soon"), "soon");
}

#[test]
fn resets_at_local_has_weekday_shape() {
    let s = fmt_resets_at("2024-01-01T12:00:00Z");
    assert_eq!(s.len(), 9);
    assert_eq!(&s[3..4], " ");
    assert_eq!(&s[6..7], ":");
}

#[test]
fn reset_time_text_patterns() {
    let t = NEW_YEAR + 13 * 3600 + 45 * 60;
    assert_eq!(reset_time_text(t, 0, false).as_deref(), Some("13:45"));
    assert_eq!(reset_time_text(t, 0, true).as_deref(), Some("Jan 01, 2024 13:45"));
    assert_eq!(reset_time_text(t, -14 * 3600, true).as_deref(), Some("Dec 31, 2023 23:45"));
    assert_eq!(reset_time_text(i64::MAX, 0, false), None);
}

#[test]
fn local_reset_time_text_shape() {
    let s = local_reset_time_text(NEW_YEAR, false).unwrap();
    assert_eq!(s.len(), 5);
    assert_eq!(local_reset_time_text(i64::MAX, true), None);
}

#[test]
fn local_today_is_a_date_stamp() {
    let d = local_today();
    assert_eq!(d.len(), 10);
    assert_eq!(&d[4..5], "-");
    assert_eq!(&d[7..8], "-");
}

// chrono represents -262143-01-01T00:00:00Z ..= +262142-12-31T23:59:59Z
const CHRONO_MIN_SECS: i64 = -8_334_601_228_800;
const CHRONO_MAX_SECS: i64 = 8_210_266_876_799;

#[test]
fn reset_time_text_range_edges() {
    assert!(reset_time_text(CHRONO_MAX_SECS, 0, false).is_some());
    assert_eq!(reset_time_text(CHRONO_MAX_SECS, 0, false).as_deref(), Some("23:59"));
    assert_eq!(reset_time_text(CHRONO_MAX_SECS + 1, 0, false), None);
    assert!(reset_time_text(CHRONO_MIN_SECS, 0, true).is_some());
    assert_eq!(reset_time_text(CHRONO_MIN_SECS - 1, 0, true), None);
    assert_eq!(reset_time_text(0, 86_400, false), None);
    assert_eq!(reset_time_text(0, -86_400, false), None);
    assert_eq!(reset_time_text(0, 86_399, false).as_deref(), Some("23:59"));
}

#[test]
fn local_reset_time_text_range_edges() {
    assert!(local_reset_time_text(CHRONO_MAX_SECS, false).is_some());
    assert_eq!(local_reset_time_text(CHRONO_MAX_SECS + 1, false), None);
    assert!(local_reset_time_text(CHRONO_MIN_SECS, true).is_some());
    assert_eq!(local_reset_time_text(CHRONO_MIN_SECS - 1, true), None);
}

#[test]
fn reset_time_text_years_outside_four_digits() {
    // 10000-01-01T00:00:00Z, 0123-01-01T00:00:00Z and -0001-01-01T00:00:00Z
    assert_eq!(
        reset_time_text(253_402_300_800, 0, true).as_deref(),
        Some("Jan 01, +10000 00:00")
    );
    assert_eq!(
        reset_time_text(-58_285_699_200, 0, true).as_deref(),
        Some("Jan 01, 0123 00:00")
    );
    assert_eq!(
        reset_time_text(-62_198_755_200, 0, true).as_deref(),
        Some("Jan 01, -0001 00:00")
    );
}

#[test]
fn dated_reset_text_ends_with_time_text() {
    for (t, offset) in [(NEW_YEAR, 0), (NEW_YEAR + 12_345, 3600), (-62_198_755_200, -7200)] {
        let dated = reset_time_text(t, offset, true).unwrap();
        let time = reset_time_text(t, offset, false).unwrap();
        assert_eq!(time.len(), 5);
        assert!(dated.ends_with(&format!(" {time}")));
    }
}

#[test]
fn resets_at_leap_second() {
    // 2016-12-31 was a Saturday; the leap second shows as 23:59.
    assert_eq!(fmt_resets_at_offset("2016-12-31T23:59:60Z", 0), "Sat 23:59");
    assert_eq!(fmt_resets_at_offset("2016-12-31T23:59:60Z", 3600), "Sun 00:59");
    let local = fmt_resets_at("2016-12-31T23:59:60Z");
    assert_eq!(local.len(), 9);
    assert_eq!(&local[6..7], ":");
}

#[test]
fn resets_in_needs_a_representable_now() {
    let iso = "2024-01-01T00:00:00Z";
    // a "now" that chrono cannot hold leaves the text as it is
    assert_eq!(fmt_resets_in_at(iso, i64::MAX, 0), iso);
    assert_eq!(fmt_resets_in_at(iso, NEW_YEAR, 1_500_000_000), iso);
    // a leap-second "now" (at the 59th second of a minute) is accepted
    assert_eq!(fmt_resets_in_at(iso, NEW_YEAR - 61, 1_500_000_000), "0m");
}
