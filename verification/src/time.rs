use vstd::prelude::*;
use crate::text::{decimal, digit_char, push_decimal};

verus! {

broadcast use vstd::string::group_string_axioms;

// ---------------------------------------------------------------------------
// Calls into chrono
// ---------------------------------------------------------------------------

/// The instant that chrono's RFC 3339 parser reads from a text, as
/// (seconds since the Unix epoch, nanoseconds within the second).
pub uninterp spec fn rfc3339_instant(text: Seq<char>) -> Option<(i64, u32)>;

/// Parses an RFC 3339 date-time with `chrono::DateTime::parse_from_rfc3339`
/// and returns its `timestamp()` and `timestamp_subsec_nanos()`.  Claimed: the
/// result is `rfc3339_instant` of the text, and it is an instant chrono can
/// hold (`chrono_instant`): every `DateTime` lies between chrono's `MIN_YEAR`
/// and `MAX_YEAR`, and a `NaiveTime` carries nanoseconds of a second or more
/// (a leap second) only at the 59th second of a minute, which RFC 3339's
/// whole-minute offsets keep when chrono converts to UTC.
#[verifier::external_body]
fn parse_rfc3339(text: &str) -> (r: Option<(i64, u32)>)
    ensures
        r == rfc3339_instant(text@),
        r matches Some(p) ==> chrono_instant(p.0 as int, p.1 as int),
{
    match chrono::DateTime::parse_from_rfc3339(text) {
        Ok(dt) => Some((dt.timestamp(), dt.timestamp_subsec_nanos())),
        Err(_) => None,
    }
}

/// The seconds since the Unix epoch that chrono can represent: from
/// -262143-01-01T00:00:00Z to +262142-12-31T23:59:59Z (chrono's `MIN_YEAR` and
/// `MAX_YEAR`).  `DateTime::from_timestamp` accepts exactly these seconds
/// (with nanoseconds below one second).
pub open spec fn in_chrono_range(secs: int) -> bool {
    -8_334_601_228_800 <= secs <= 8_210_266_876_799
}

/// An instant as (seconds since the Unix epoch, nanoseconds) that chrono's
/// `DateTime::from_timestamp` accepts: the seconds in chrono's range, and the
/// nanoseconds below one second, or below two seconds at the 59th second of a
/// minute (a leap second; `NaiveTime::from_num_seconds_from_midnight_opt`).
pub open spec fn chrono_instant(secs: int, nanos: int) -> bool {
    &&& in_chrono_range(secs)
    &&& nanos < 1_000_000_000 || (nanos < 2_000_000_000 && secs % 60 == 59)
}

/// The current instant from `chrono::Utc::now`, as (seconds since the Unix
/// epoch, nanoseconds).  Claimed: the nanoseconds are below one second
/// (chrono builds it from the system clock's `Duration`) and the seconds are
/// in chrono's range (chrono builds the value with
/// `DateTime::from_timestamp(..).unwrap()`); which instant it is depends on the
/// clock.  chrono panics when the system clock reads a time before 1970 or
/// beyond its range, a state of the machine that no `requires` can exclude.
#[verifier::external_body]
fn utc_now() -> (r: (i64, u32))
    ensures
        r.1 < 1_000_000_000,
        in_chrono_range(r.0 as int),
{
    let now = chrono::Utc::now();
    (now.timestamp(), now.timestamp_subsec_nanos())
}

/// Truncating division toward zero.
pub open spec fn div_toward_zero(x: int, d: int) -> int {
    if x >= 0 {
        x / d
    } else {
        -((-x) / d)
    }
}

/// The whole seconds that chrono's `(a - b).num_seconds()` gives for two instants.
pub uninterp spec fn whole_seconds_between(a_secs: i64, a_nanos: u32, b_secs: i64, b_nanos: u32) -> Option<i64>;

/// `(a - b).num_seconds()` for the chrono instants `DateTime::from_timestamp(a)`
/// and `DateTime::from_timestamp(b)`; `None` when chrono rejects either
/// instant.  Claimed: the result is `whole_seconds_between`; it is `Some`
/// exactly when chrono accepts both instants (`chrono_instant`); and when
/// neither instant is a leap second it is the exact difference truncated
/// toward zero (`TimeDelta::num_seconds` truncates; `signed_duration_since` is
/// exact outside leap seconds).
#[verifier::external_body]
fn seconds_between(a_secs: i64, a_nanos: u32, b_secs: i64, b_nanos: u32) -> (r: Option<i64>)
    ensures
        r == whole_seconds_between(a_secs, a_nanos, b_secs, b_nanos),
        r is Some <==> (chrono_instant(a_secs as int, a_nanos as int) && chrono_instant(
            b_secs as int,
            b_nanos as int,
        )),
        a_nanos < 1_000_000_000 && b_nanos < 1_000_000_000 ==> (r matches Some(d) ==> d
            == div_toward_zero(
            (a_secs - b_secs) * 1_000_000_000 + (a_nanos - b_nanos),
            1_000_000_000,
        )),
{
    match (chrono::DateTime::from_timestamp(a_secs, a_nanos), chrono::DateTime::from_timestamp(b_secs, b_nanos)) {
        (Some(a), Some(b)) => Some((a - b).num_seconds()),
        _ => None,
    }
}

/// The offset, in seconds east of UTC, of the machine's local time zone at
/// the given instant (`DateTime::with_timezone(&chrono::Local)`, then
/// `offset().local_minus_utc()`); `None` when chrono rejects the instant.
/// Claimed: only that an offset lies strictly within one day, which chrono's
/// `FixedOffset` guarantees; which offset comes back depends on the machine.
/// chrono panics when the machine's time-zone data yields no offset for the
/// instant, which depends on that data and so is not excluded by a `requires`.
#[verifier::external_body]
fn local_offset_at(secs: i64) -> (r: Option<i32>)
    ensures
        r matches Some(o) ==> -86_400 < o < 86_400,
        r is Some <==> in_chrono_range(secs as int),
{
    match chrono::DateTime::from_timestamp(secs, 0) {
        Some(dt) => Some(dt.with_timezone(&chrono::Local).offset().local_minus_utc()),
        None => None,
    }
}

/// The format patterns the backend uses.
pub open spec fn known_pattern(p: Seq<char>) -> bool {
    ||| p == "%a %H:%M"@
    ||| p == "%H:%M"@
    ||| p == "%b %d, %Y %H:%M"@
    ||| p == "%Y-%m-%d"@
}

/// A number below 100 written with two digits.
pub open spec fn two_digits(n: int) -> Seq<char> {
    seq![digit_char((n / 10) as nat), digit_char((n % 10) as nat)]
}

/// The wall-clock time "HH:MM" of an instant shown at a UTC offset.
pub open spec fn clock_text(secs: i64, offset: i32) -> Seq<char> {
    let sod = (secs + offset) % 86_400;
    two_digits(sod / 3600) + ":"@ + two_digits((sod % 3600) / 60)
}

/// The English three-letter name of the weekday of an instant shown at a UTC
/// offset (1970-01-01 was a Thursday).
pub open spec fn weekday_text(secs: i64, offset: i32) -> Seq<char> {
    let w = ((secs + offset) / 86_400 + 3) % 7;
    if w == 0 {
        "Mon"@
    } else if w == 1 {
        "Tue"@
    } else if w == 2 {
        "Wed"@
    } else if w == 3 {
        "Thu"@
    } else if w == 4 {
        "Fri"@
    } else if w == 5 {
        "Sat"@
    } else {
        "Sun"@
    }
}

/// The proleptic Gregorian (year, month, day) of a day number counted from
/// 1970-01-01.
pub open spec fn civil_date(days: int) -> (int, int, int) {
    let z = days + 719_468;
    let era = z / 146_097;
    let doe = z - era * 146_097;
    let yoe = (doe - doe / 1460 + doe / 36_524 - doe / 146_096) / 365;
    let doy = doe - (365 * yoe + yoe / 4 - yoe / 100);
    let mp = (5 * doy + 2) / 153;
    let d = doy - (153 * mp + 2) / 5 + 1;
    let m = if mp < 10 {
        mp + 3
    } else {
        mp - 9
    };
    let y = yoe + era * 400 + if m <= 2 {
        1int
    } else {
        0int
    };
    (y, m, d)
}

/// The local calendar date of an instant shown at a UTC offset.
pub open spec fn local_date(secs: i64, offset: i32) -> (int, int, int) {
    civil_date((secs + offset) / 86_400)
}

/// A number below 10000 written with four digits.
pub open spec fn four_digits(n: int) -> Seq<char> {
    two_digits(n / 100) + two_digits(n % 100)
}

/// A year as chrono's `%Y` writes it: four digits for years 0 to 9999;
/// outside them a sign and the magnitude padded to at least four digits.
pub open spec fn year_text(y: int) -> Seq<char> {
    if 0 <= y <= 9999 {
        four_digits(y)
    } else {
        let a = if y < 0 {
            -y
        } else {
            y
        };
        let sign = if y < 0 {
            "-"@
        } else {
            "+"@
        };
        if a <= 9999 {
            sign + four_digits(a)
        } else {
            sign + decimal(a as nat)
        }
    }
}

/// The English three-letter name of a month (1 to 12).
pub open spec fn month_text(m: int) -> Seq<char> {
    if m == 1 {
        "Jan"@
    } else if m == 2 {
        "Feb"@
    } else if m == 3 {
        "Mar"@
    } else if m == 4 {
        "Apr"@
    } else if m == 5 {
        "May"@
    } else if m == 6 {
        "Jun"@
    } else if m == 7 {
        "Jul"@
    } else if m == 8 {
        "Aug"@
    } else if m == 9 {
        "Sep"@
    } else if m == 10 {
        "Oct"@
    } else if m == 11 {
        "Nov"@
    } else {
        "Dec"@
    }
}

/// "YYYY-MM-DD" of an instant shown at a UTC offset.
pub open spec fn date_text(secs: i64, offset: i32) -> Seq<char> {
    let (y, m, d) = local_date(secs, offset);
    year_text(y) + "-"@ + two_digits(m) + "-"@ + two_digits(d)
}

/// "Mon DD, YYYY HH:MM" of an instant shown at a UTC offset.
pub open spec fn month_day_year_clock_text(secs: i64, offset: i32) -> Seq<char> {
    let (y, m, d) = local_date(secs, offset);
    month_text(m) + " "@ + two_digits(d) + ", "@ + year_text(y) + " "@ + clock_text(secs, offset)
}

/// What chrono's `format(pattern)` writes for an instant shown at a fixed
/// offset from UTC.
pub uninterp spec fn instant_text(secs: i64, nanos: u32, offset: i32, pattern: Seq<char>) -> Option<Seq<char>>;

/// Formats an instant shown at a fixed UTC offset with chrono
/// (`DateTime::from_timestamp`, `FixedOffset::east_opt`, `with_timezone`,
/// `format(pattern).to_string()`); `None` when chrono rejects the instant or
/// the offset.  Claimed: the result is `instant_text` of the arguments; it is
/// `Some` exactly when chrono accepts the offset (strictly within one day) and
/// the instant (`chrono_instant`); "%H:%M" gives the zero-padded hour and
/// minute of the local time, "%a %H:%M" the English weekday abbreviation, a
/// space and that time, "%Y-%m-%d" and "%b %d, %Y %H:%M" the proleptic
/// Gregorian date with `%Y` as `year_text` (chrono's documented `%a`, `%b`,
/// `%d`, `%m`, `%Y`, `%H`, `%M`; `write_year` in its formatting code).
/// `requires` keeps to the patterns the backend uses, which chrono accepts (an
/// invalid pattern makes `to_string` panic).
#[verifier::external_body]
fn format_instant(secs: i64, nanos: u32, offset: i32, pattern: &str) -> (r: Option<String>)
    requires
        known_pattern(pattern@),
    ensures
        match r {
            Some(s) => instant_text(secs, nanos, offset, pattern@) == Some(s@),
            None => instant_text(secs, nanos, offset, pattern@) is None,
        },
        r is Some <==> (-86_400 < offset < 86_400 && chrono_instant(secs as int, nanos as int)),
        pattern@ == "%H:%M"@ ==> (r matches Some(s) ==> s@ == clock_text(secs, offset)),
        pattern@ == "%a %H:%M"@ ==> (r matches Some(s) ==> s@ == weekday_text(secs, offset)
            + " "@ + clock_text(secs, offset)),
        pattern@ == "%Y-%m-%d"@ ==> (r matches Some(s) ==> s@ == date_text(secs, offset)),
        pattern@ == "%b %d, %Y %H:%M"@ ==> (r matches Some(s) ==> s@ == month_day_year_clock_text(
            secs,
            offset,
        )),
{
    match (chrono::FixedOffset::east_opt(offset), chrono::DateTime::from_timestamp(secs, nanos)) {
        (Some(tz), Some(dt)) => Some(dt.with_timezone(&tz).format(pattern).to_string()),
        _ => None,
    }
}

// ---------------------------------------------------------------------------
// Durations
// ---------------------------------------------------------------------------

/// A duration in seconds as "`h`h `m`m" when it spans at least an hour, else
/// "`m`m" (whole hours, then the whole minutes left over).
pub open spec fn duration_label(secs: nat) -> Seq<char> {
    let h = secs / 3600;
    let m = (secs % 3600) / 60;
    if h > 0 {
        decimal(h) + "h "@ + decimal(m) + "m"@
    } else {
        decimal(m) + "m"@
    }
}

/// A duration in seconds as "`h`h `m`m" or "`m`m" (see `duration_label`).
pub fn fmt_seconds(secs: u64) -> (r: String)
    ensures
        r@ == duration_label(secs as nat),
{
    let h = secs / 3600;
    let m = (secs % 3600) / 60;
    let mut out = String::new();
    if h > 0 {
        push_decimal(&mut out, h);
        out.append("h ");
        push_decimal(&mut out, m);
        out.append("m");
    } else {
        push_decimal(&mut out, m);
        out.append("m");
    }
    out
}

/// The countdown text for a reset time given as RFC 3339 text, seen at the
/// instant `now`: the whole seconds until the reset (none when it has passed)
/// as a duration label; the text itself when it does not parse.
pub open spec fn resets_in_label(iso: Seq<char>, now_secs: i64, now_nanos: u32) -> Seq<char> {
    match rfc3339_instant(iso) {
        Some(t) => match whole_seconds_between(t.0, t.1, now_secs, now_nanos) {
            Some(d) => duration_label(if d > 0 {
                d as nat
            } else {
                0
            }),
            None => iso,
        },
        None => iso,
    }
}

/// The countdown text for a reset time at the instant `now` (see `resets_in_label`).
pub fn fmt_resets_in_at(iso: &str, now_secs: i64, now_nanos: u32) -> (r: String)
    ensures
        r@ == resets_in_label(iso@, now_secs, now_nanos),
        // A reset time that has already passed shows "0m".
        rfc3339_instant(iso@) matches Some(t) ==> (t.1 < 1_000_000_000 && now_nanos
            < 1_000_000_000 && in_chrono_range(now_secs as int) && t.0 * 1_000_000_000 + t.1
            <= now_secs * 1_000_000_000 + now_nanos ==> r@ == "0m"@),
        // A reset time that parses, seen at an instant chrono can hold, is shown
        // as a duration (see `resets_in_label`).
        rfc3339_instant(iso@) matches Some(t) ==> (chrono_instant(now_secs as int, now_nanos as int)
            ==> whole_seconds_between(t.0, t.1, now_secs, now_nanos) is Some),
{
    match parse_rfc3339(iso) {
        Some((secs, nanos)) => match seconds_between(secs, nanos, now_secs, now_nanos) {
            Some(d) => {
                proof {
                    if nanos < 1_000_000_000 && now_nanos < 1_000_000_000 && secs * 1_000_000_000
                        + nanos <= now_secs * 1_000_000_000 + now_nanos {
                        let x = (secs - now_secs) * 1_000_000_000 + (nanos - now_nanos);
                        assert(x <= 0) by (nonlinear_arith)
                            requires
                                secs * 1_000_000_000 + nanos <= now_secs * 1_000_000_000
                                    + now_nanos,
                                x == (secs - now_secs) * 1_000_000_000 + (nanos - now_nanos),
                        ;
                        assert(d <= 0);
                        reveal_strlit("m");
                        assert(decimal(0) == seq![digit_char(0)]);
                        assert(duration_label(0) =~= "0m"@) by {
                            reveal_strlit("0m");
                        }
                    }
                }
                let s: u64 = if d > 0 {
                    d as u64
                } else {
                    0
                };
                fmt_seconds(s)
            },
            None => String::from_str(iso),
        },
        None => String::from_str(iso),
    }
}

/// The countdown text for a reset time, seen now (see `resets_in_label`).
pub fn fmt_resets_in(iso: &str) -> (r: String)
    ensures
        exists|now_secs: i64, now_nanos: u32|
            {
                &&& now_nanos < 1_000_000_000
                &&& in_chrono_range(now_secs as int)
                &&& r@ == resets_in_label(iso@, now_secs, now_nanos)
            },
{
    let (now_secs, now_nanos) = utc_now();
    fmt_resets_in_at(iso, now_secs, now_nanos)
}

// ---------------------------------------------------------------------------
// Wall-clock texts
// ---------------------------------------------------------------------------

/// An instant formatted at a UTC offset with one of the backend's patterns;
/// `fallback` when chrono rejects the instant.
pub open spec fn instant_label(
    secs: i64,
    nanos: u32,
    offset: i32,
    pattern: Seq<char>,
    fallback: Seq<char>,
) -> Seq<char> {
    match instant_text(secs, nanos, offset, pattern) {
        Some(t) => t,
        None => fallback,
    }
}

/// The weekday-and-time text ("%a %H:%M") of a reset time given as RFC 3339
/// text, shown at the UTC offset `offset`; the text itself when it does not
/// parse.
pub open spec fn resets_at_label(iso: Seq<char>, offset: i32) -> Seq<char> {
    match rfc3339_instant(iso) {
        Some(t) => instant_label(t.0, t.1, offset, "%a %H:%M"@, iso),
        None => iso,
    }
}

/// The weekday-and-time text of a reset time at a given UTC offset (see `resets_at_label`).
pub fn fmt_resets_at_offset(iso: &str, offset: i32) -> (r: String)
    ensures
        r@ == resets_at_label(iso@, offset),
        rfc3339_instant(iso@) matches Some(t) ==> (-86_400 < offset < 86_400 ==> r@
            == weekday_text(t.0, offset) + " "@ + clock_text(t.0, offset)),
{
    match parse_rfc3339(iso) {
        Some((secs, nanos)) => match format_instant(secs, nanos, offset, "%a %H:%M") {
            Some(t) => t,
            None => String::from_str(iso),
        },
        None => String::from_str(iso),
    }
}

/// The weekday-and-time text of a reset time in the machine's local time:
/// the text itself when it does not parse as RFC 3339, otherwise the weekday
/// and "HH:MM" of that instant at the machine's local offset (see
/// `resets_at_label`).
pub fn fmt_resets_at(iso: &str) -> (r: String)
    ensures
        rfc3339_instant(iso@) is None ==> r@ == iso@,
        rfc3339_instant(iso@) matches Some(t) ==> exists|offset: i32|
            {
                &&& -86_400 < offset < 86_400
                &&& r@ == resets_at_label(iso@, offset)
                &&& r@ == weekday_text(t.0, offset) + " "@ + clock_text(t.0, offset)
            },
{
    match parse_rfc3339(iso) {
        Some((secs, _nanos)) => match local_offset_at(secs) {
            Some(offset) => fmt_resets_at_offset(iso, offset),
            None => String::from_str(iso),
        },
        None => String::from_str(iso),
    }
}

/// The pattern for a Codex reset time: with the date for the weekly window.
pub open spec fn reset_pattern(include_date: bool) -> Seq<char> {
    if include_date {
        "%b %d, %Y %H:%M"@
    } else {
        "%H:%M"@
    }
}

/// The Codex reset text of a Unix timestamp shown at a UTC offset ("%H:%M",
/// or "%b %d, %Y %H:%M" with the date); `None` when chrono rejects the instant.
pub fn reset_time_text(secs: i64, offset: i32, include_date: bool) -> (r: Option<String>)
    ensures
        match r {
            Some(s) => reset_text_at(secs, offset, include_date, s@),
            None => instant_text(secs, 0, offset, reset_pattern(include_date)) is None,
        },
        r is Some <==> (-86_400 < offset < 86_400 && in_chrono_range(secs as int)),
{
    if include_date {
        format_instant(secs, 0, offset, "%b %d, %Y %H:%M")
    } else {
        format_instant(secs, 0, offset, "%H:%M")
    }
}

/// The reset text `s` of a Unix timestamp shown at a UTC offset: what chrono
/// writes with the reset pattern, which is "HH:MM" without the date and
/// "Mon DD, YYYY HH:MM" with it.
pub open spec fn reset_text_at(secs: i64, offset: i32, include_date: bool, s: Seq<char>) -> bool {
    &&& instant_text(secs, 0, offset, reset_pattern(include_date)) == Some(s)
    &&& !include_date ==> s == clock_text(secs, offset)
    &&& include_date ==> s == month_day_year_clock_text(secs, offset)
}

/// The Codex reset text of a Unix timestamp in the machine's local time (see
/// `reset_text_at`, at the local offset of that instant); `None` exactly when
/// chrono cannot represent the instant.
pub fn local_reset_time_text(secs: i64, include_date: bool) -> (r: Option<String>)
    ensures
        r is Some <==> in_chrono_range(secs as int),
        r matches Some(s) ==> exists|offset: i32|
            -86_400 < offset < 86_400 && reset_text_at(secs, offset, include_date, s@),
{
    match local_offset_at(secs) {
        Some(offset) => reset_time_text(secs, offset, include_date),
        None => None,
    }
}

/// Today's local date as "%Y-%m-%d" (the stamp local session logs carry):
/// what chrono writes for the current instant at the machine's local offset,
/// "YYYY-MM-DD" (see `date_text`).
pub fn local_today() -> (r: String)
    ensures
        exists|secs: i64, nanos: u32, offset: i32|
            {
                &&& in_chrono_range(secs as int)
                &&& nanos < 1_000_000_000
                &&& -86_400 < offset < 86_400
                &&& instant_text(secs, nanos, offset, "%Y-%m-%d"@) == Some(r@)
                &&& r@ == date_text(secs, offset)
            },
{
    let (secs, nanos) = utc_now();
    match local_offset_at(secs) {
        Some(offset) => match date_stamp_at(secs, nanos, offset) {
            Some(t) => t,
            None => String::new(),
        },
        None => String::new(),
    }
}

/// The date stamp "%Y-%m-%d" of an instant shown at a UTC offset: the local
/// calendar date "YYYY-MM-DD" (see `date_text`); `None` exactly when chrono
/// rejects the instant or the offset.
pub fn date_stamp_at(secs: i64, nanos: u32, offset: i32) -> (r: Option<String>)
    ensures
        r is Some <==> (-86_400 < offset < 86_400 && chrono_instant(secs as int, nanos as int)),
        r matches Some(s) ==> s@ == date_text(secs, offset) && instant_text(
            secs,
            nanos,
            offset,
            "%Y-%m-%d"@,
        ) == Some(s@),
{
    format_instant(secs, nanos, offset, "%Y-%m-%d")
}

} // verus!
