//! Dates of the proleptic Gregorian calendar and the timestamps of the log.

use crate::text::{
    a_written_number_is_read_back, decimal, decimal_string, digits_value, fill_left, filled_left,
    repeated,
};
use std::time::{Duration, SystemTime, UNIX_EPOCH};
use vstd::arithmetic::div_mod::{lemma_hoist_over_denominator, lemma_mod_multiples_vanish};
use vstd::prelude::*;

verus! {

// ── The calendar ──────────────────────────────────────────────────

/// `y` is a leap year.
pub open spec fn leap(y: int) -> bool {
    y % 4 == 0 && (y % 100 != 0 || y % 400 == 0)
}

/// The number of days of year `y`.
pub open spec fn year_days(y: int) -> int {
    if leap(y) {
        366
    } else {
        365
    }
}

/// The number of days of month `m` of year `y`.
pub open spec fn month_days(y: int, m: int) -> int {
    if m == 2 {
        if leap(y) {
            29
        } else {
            28
        }
    } else if m == 4 || m == 6 || m == 9 || m == 11 {
        30
    } else {
        31
    }
}

/// `y`-`m`-`d` is a date of the calendar.
pub open spec fn valid_date(y: int, m: int, d: int) -> bool {
    1 <= m <= 12 && 1 <= d <= month_days(y, m)
}

/// The days from 1970-01-01 to the first of January of year `y`, counted year
/// by year; negative before 1970.
pub open spec fn year_start(y: int) -> int
    decreases
            (if y < 1970 {
                1970 - y
            } else {
                y - 1970
            }),
{
    if y == 1970 {
        0
    } else if y > 1970 {
        year_start(y - 1) + year_days(y - 1)
    } else {
        year_start(y + 1) - year_days(y)
    }
}

/// The days of year `y` before the first of month `m`.
pub open spec fn days_before_month(y: int, m: int) -> int
    decreases m,
{
    if m <= 1 {
        0
    } else {
        days_before_month(y, m - 1) + month_days(y, m - 1)
    }
}

/// The days from 1970-01-01 to the date.
pub open spec fn day_number(y: int, m: int, d: int) -> int {
    year_start(y) + days_before_month(y, m) + d - 1
}

// ── Arithmetic of the calendar ────────────────────────────────────

/// The leap years before year `y`, relative to year 1.
spec fn leaps_before(y: int) -> int {
    (y - 1) / 4 - (y - 1) / 100 + (y - 1) / 400
}

proof fn lemma_leaps_step(y: int)
    ensures
        leaps_before(y + 1) == leaps_before(y) + (if leap(y) {
            1int
        } else {
            0
        }),
{
    assert(y / 4 - (y - 1) / 4 == if y % 4 == 0 {
        1int
    } else {
        0
    });
    assert(y / 100 - (y - 1) / 100 == if y % 100 == 0 {
        1int
    } else {
        0
    });
    assert(y / 400 - (y - 1) / 400 == if y % 400 == 0 {
        1int
    } else {
        0
    });
    assert(y % 100 == 0 ==> y % 4 == 0);
    assert(y % 400 == 0 ==> y % 100 == 0);
}

proof fn lemma_year_start(y: int)
    ensures
        year_start(y) == 365 * (y - 1970) + leaps_before(y) - 477,
    decreases
            (if y < 1970 {
                1970 - y
            } else {
                y - 1970
            }),
{
    if y > 1970 {
        lemma_year_start(y - 1);
        lemma_leaps_step(y - 1);
    } else if y < 1970 {
        lemma_year_start(y + 1);
        lemma_leaps_step(y);
    }
}

/// The year of a 400-year era that starts on the first of March, from the day
/// of the era.
proof fn lemma_year_of_era(doe: int, yoe: int)
    requires
        0 <= doe < 146097,
        yoe == (doe - doe / 1460 + doe / 36524 - doe / 146096) / 365,
    ensures
        0 <= yoe <= 399,
        365 * yoe + yoe / 4 - yoe / 100 <= doe,
        yoe < 399 ==> doe < 365 * (yoe + 1) + (yoe + 1) / 4 - (yoe + 1) / 100,
{
}

/// The month and the day, from the day of a year that starts on the first of
/// March; `y` is the calendar year of that first of March.
proof fn lemma_month_and_day(y: int, doy: int, mp: int)
    requires
        0 <= doy <= 365,
        doy == 365 ==> leap(y + 1),
        mp == (5 * doy + 2) / 153,
    ensures
        0 <= mp <= 11,
        ({
            let d = doy - (153 * mp + 2) / 5 + 1;
            let m = if mp < 10 {
                mp + 3
            } else {
                mp - 9
            };
            let cy = if m <= 2 {
                y + 1
            } else {
                y
            };
            &&& valid_date(cy, m, d)
            &&& m > 2 ==> days_before_month(y, m) + d - 1 == year_days(y) - 306 + doy
            &&& m <= 2 ==> days_before_month(y + 1, m) + d - 1 == doy - 306
        }),
{
    reveal_with_fuel(days_before_month, 13);
}

/// Division by a divisor of 400 within an era.
proof fn lemma_within_an_era(era: int, n: int, d: int, k: int)
    requires
        d > 0,
        d * k == 400,
    ensures
        (n + era * 400) / d == n / d + era * k,
        (n + era * 400) % d == n % d,
{
    assert(era * 400 == (era * k) * d && era * 400 == d * (era * k)) by (nonlinear_arith)
        requires
            d * k == 400,
    ;
    lemma_hoist_over_denominator(n, era * k, d as nat);
    lemma_mod_multiples_vanish(era * k, n, d);
}

/// The leap years before the year after `y`, where `y` is year `yoe` of the
/// 400-year era `era`.
proof fn lemma_leaps_in_era(era: int, yoe: int)
    requires
        0 <= yoe <= 399,
    ensures
        ({
            let y = yoe + era * 400;
            &&& leaps_before(y + 1) == yoe / 4 - yoe / 100 + era * 97
            &&& leap(y + 1) == (yoe == 399 || ((yoe + 1) % 4 == 0 && (yoe + 1) % 100 != 0))
        }),
{
    lemma_within_an_era(era, yoe, 4, 100);
    lemma_within_an_era(era, yoe, 100, 4);
    lemma_within_an_era(era, yoe, 400, 1);
    lemma_within_an_era(era, yoe + 1, 4, 100);
    lemma_within_an_era(era, yoe + 1, 100, 4);
    lemma_within_an_era(era, yoe + 1, 400, 1);
}

/// The day number of the date that lies `doy` days after the first of March of
/// year `y`, where `y` is year `yoe` of the 400-year era `era`.
proof fn lemma_day_number(era: int, yoe: int, doy: int)
    requires
        0 <= yoe <= 399,
        0 <= doy,
    ensures
        ({
            let y = yoe + era * 400;
            &&& year_start(y) + year_days(y) - 306 + doy == era * 146097 + 365 * yoe + yoe / 4
                - yoe / 100 + doy - 719468
            &&& year_start(y + 1) + doy - 306 == era * 146097 + 365 * yoe + yoe / 4 - yoe / 100
                + doy - 719468
            &&& leap(y + 1) == (yoe == 399 || ((yoe + 1) % 4 == 0 && (yoe + 1) % 100 != 0))
        }),
{
    let y = yoe + era * 400;
    lemma_leaps_in_era(era, yoe);
    lemma_year_start(y + 1);
    assert(year_start(y + 1) == year_start(y) + year_days(y)) by {
        lemma_year_start(y);
        lemma_leaps_step(y);
    }
}

/// Convert days since 1970-01-01 (Unix epoch) to a (year, month, day)
/// civil date, in UTC.
pub fn civil_from_days(z: i64) -> (date: (i64, u32, u32))
    requires
        z + 719_468 <= i64::MAX,
    ensures
        valid_date(date.0 as int, date.1 as int, date.2 as int),
        day_number(date.0 as int, date.1 as int, date.2 as int) == z,
{
    let shifted: i64 = z + 719_468;
    let era: i64 = if shifted >= 0 {
        shifted
    } else {
        shifted - 146_096
    } / 146_097;
    assert(0 <= shifted - era * 146_097 < 146_097);
    let doe: u64 = (shifted - era * 146_097) as u64;
    let yoe: u64 = (doe - doe / 1460 + doe / 36524 - doe / 146096) / 365;
    proof {
        lemma_year_of_era(doe as int, yoe as int);
    }
    let y: i64 = yoe as i64 + era * 400;
    let doy: u64 = doe - (365 * yoe + yoe / 4 - yoe / 100);
    proof {
        lemma_day_number(era as int, yoe as int, doy as int);
        assert(doy <= 365 && (doy == 365 ==> leap(y + 1)));
    }
    let mp: u64 = (5 * doy + 2) / 153;
    proof {
        lemma_month_and_day(y as int, doy as int, mp as int);
    }
    let d: u32 = (doy - (153 * mp + 2) / 5 + 1) as u32;
    let m: u32 = if mp < 10 {
        mp + 3
    } else {
        mp - 9
    } as u32;
    (if m <= 2 {
        y + 1
    } else {
        y
    }, m, d)
}

proof fn lemma_years_in_order(a: int, b: int)
    requires
        a < b,
    ensures
        year_start(a) + year_days(a) <= year_start(b),
    decreases b - a,
{
    assert(year_start(a + 1) == year_start(a) + year_days(a)) by {
        lemma_year_start(a);
        lemma_year_start(a + 1);
        lemma_leaps_step(a);
    }
    if a + 1 < b {
        lemma_years_in_order(a + 1, b);
    }
}

proof fn lemma_day_of_year(y: int, m: int, d: int)
    requires
        valid_date(y, m, d),
    ensures
        0 <= days_before_month(y, m) + d - 1 < year_days(y),
{
    reveal_with_fuel(days_before_month, 13);
}

/// No two dates lie the same number of days from 1970-01-01, so a day number
/// stands for one date only.
pub proof fn a_day_number_stands_for_one_date(a: (int, int, int), b: (int, int, int))
    requires
        valid_date(a.0, a.1, a.2),
        valid_date(b.0, b.1, b.2),
        day_number(a.0, a.1, a.2) == day_number(b.0, b.1, b.2),
    ensures
        a == b,
{
    lemma_day_of_year(a.0, a.1, a.2);
    lemma_day_of_year(b.0, b.1, b.2);
    if a.0 < b.0 {
        lemma_years_in_order(a.0, b.0);
    } else if b.0 < a.0 {
        lemma_years_in_order(b.0, a.0);
    }
    reveal_with_fuel(days_before_month, 13);
}

// ── Timestamps ────────────────────────────────────────────────────

/// A number in decimal notation, with zeros before it up to `width` digits.
pub open spec fn zero_filled(n: nat, width: int) -> Seq<char> {
    filled_left(decimal(n), '0', width)
}

/// The text `YYYY-MM-DD hh:mm:ss.mmm`.
pub open spec fn timestamp_text(
    y: nat,
    mo: nat,
    d: nat,
    h: nat,
    mi: nat,
    s: nat,
    ms: nat,
) -> Seq<char> {
    zero_filled(y, 4) + "-"@ + zero_filled(mo, 2) + "-"@ + zero_filled(d, 2) + " "@ + zero_filled(
        h,
        2,
    ) + ":"@ + zero_filled(mi, 2) + ":"@ + zero_filled(s, 2) + "."@ + zero_filled(ms, 3)
}

/// `text` is the UTC timestamp of the moment `millis` milliseconds after
/// second `secs` of the Unix epoch.
pub open spec fn is_timestamp_of(text: Seq<char>, secs: nat, millis: nat) -> bool {
    exists|y: nat, mo: nat, d: nat| #[trigger]
        valid_date(y as int, mo as int, d as int) && day_number(y as int, mo as int, d as int)
            == secs / 86400 && text == timestamp_text(
            y,
            mo,
            d,
            secs % 86400 / 3600,
            secs % 3600 / 60,
            secs % 60,
            millis,
        )
}

fn append_zero_filled(out: &mut String, n: u64, width: usize)
    ensures
        final(out)@ == old(out)@ + zero_filled(n as nat, width as int),
{
    out.append(fill_left(decimal_string(n).as_str(), '0', width).as_str());
}

/// The log timestamp of the moment `millis` milliseconds after second `secs`
/// of the Unix epoch.
pub fn format_timestamp(secs: u64, millis: u32) -> (r: String)
    ensures
        is_timestamp_of(r@, secs as nat, millis as nat),
{
    let (y, mo, d) = civil_from_days((secs / 86400) as i64);
    proof {
        if y < 1970 {
            lemma_day_of_year(y as int, mo as int, d as int);
            lemma_years_in_order(y as int, 1970);
        }
    }
    let mut out = String::new();
    append_zero_filled(&mut out, y as u64, 4);
    out.append("-");
    append_zero_filled(&mut out, mo as u64, 2);
    out.append("-");
    append_zero_filled(&mut out, d as u64, 2);
    out.append(" ");
    append_zero_filled(&mut out, secs % 86400 / 3600, 2);
    out.append(":");
    append_zero_filled(&mut out, secs % 3600 / 60, 2);
    out.append(":");
    append_zero_filled(&mut out, secs % 60, 2);
    out.append(".");
    append_zero_filled(&mut out, millis as u64, 3);
    assert(out@ =~= timestamp_text(
        y as nat,
        mo as nat,
        d as nat,
        secs as nat % 86400 / 3600,
        secs as nat % 3600 / 60,
        secs as nat % 60,
        millis as nat,
    ));
    out
}

#[verifier::external_type_specification]
#[verifier::external_body]
pub struct ExSystemTime(SystemTime);

/// The time that `SystemTime::duration_since` gives from the Unix epoch to a
/// moment; none for a moment before the epoch.
pub uninterp spec fn time_since_epoch(t: SystemTime) -> Option<Duration>;

/// The whole seconds of a duration.
pub uninterp spec fn whole_seconds(d: Duration) -> u64;

/// The milliseconds of the fractional second of a duration.
pub uninterp spec fn milliseconds(d: Duration) -> u32;

/// `SystemTime::now`: a reading of the system clock, of which nothing is
/// promised.
#[verifier::external_body]
fn clock_reading() -> SystemTime {
    SystemTime::now()
}

/// `SystemTime::duration_since` from the Unix epoch: the time that has passed
/// up to the moment, or nothing for a moment before the epoch.
#[verifier::external_body]
fn since_epoch(t: SystemTime) -> (r: Option<Duration>)
    ensures
        r == time_since_epoch(t),
{
    t.duration_since(UNIX_EPOCH).ok()
}

/// `Duration::as_secs`: the whole seconds.
pub assume_specification[ Duration::as_secs ](d: &Duration) -> (r: u64)
    ensures
        r == whole_seconds(*d),
;

/// `Duration::subsec_millis`: the milliseconds of the fractional second, less
/// than a second.
pub assume_specification[ Duration::subsec_millis ](d: &Duration) -> (r: u32)
    ensures
        r == milliseconds(*d),
        r < 1000,
;

/// `text` is the timestamp of a moment; that of the epoch itself for a moment
/// before it.
pub open spec fn is_timestamp_at(text: Seq<char>, t: SystemTime) -> bool {
    match time_since_epoch(t) {
        Some(d) => milliseconds(d) < 1000 && is_timestamp_of(
            text,
            whole_seconds(d) as nat,
            milliseconds(d) as nat,
        ),
        None => is_timestamp_of(text, 0, 0),
    }
}

/// The timestamp of the moment that the clock shows, whichever that is.
pub fn chrono_now() -> (r: String)
    ensures
        exists|t: SystemTime| is_timestamp_at(r@, t),
{
    let t = clock_reading();
    let r = match since_epoch(t) {
        Some(d) => format_timestamp(d.as_secs(), d.subsec_millis()),
        None => format_timestamp(0, 0),
    };
    assert(is_timestamp_at(r@, t));
    r
}

/// The text `[timestamp] pid: message` and a line feed.
pub open spec fn log_text(timestamp: Seq<char>, pid: nat, message: Seq<char>) -> Seq<char> {
    "["@ + timestamp + "] "@ + decimal(pid) + ": "@ + message + "\n"@
}

/// The line `[timestamp] pid: message` of the daemon's log.
pub fn log_line(timestamp: &str, pid: u32, message: &str) -> (r: String)
    ensures
        r@ == "["@ + timestamp@ + "] "@ + decimal(pid as nat) + ": "@ + message@ + "\n"@,
        r@ == log_text(timestamp@, pid as nat, message@),
{
    let mut out = String::new();
    out.append("[");
    out.append(timestamp);
    out.append("] ");
    out.append(decimal_string(pid as u64).as_str());
    out.append(": ");
    out.append(message);
    out.append("\n");
    assert(out@ =~= "["@ + timestamp@ + "] "@ + decimal(pid as nat) + ": "@ + message@ + "\n"@);
    out
}

proof fn lemma_zero_filled_len(n: nat, width: int)
    requires
        1 <= width <= 4,
        width == 1 ==> n < 10,
        width == 2 ==> n < 100,
        width == 3 ==> n < 1000,
        width == 4 ==> n < 10000,
    ensures
        zero_filled(n, width).len() == width,
        forall|i: int| 0 <= i < width ==> '0' <= #[trigger] zero_filled(n, width)[i] <= '9',
{
    reveal_with_fuel(decimal, 5);
}

/// A timestamp before the year 10000 has 23 characters: digits, but for the
/// separators of `YYYY-MM-DD hh:mm:ss.mmm` in their places.
pub proof fn timestamps_have_a_fixed_layout(text: Seq<char>, secs: nat, millis: nat)
    requires
        is_timestamp_of(text, secs, millis),
        secs / 86400 < year_start(10000),
        millis < 1000,
    ensures
        text.len() == 23,
        text[4] == '-',
        text[7] == '-',
        text[10] == ' ',
        text[13] == ':',
        text[16] == ':',
        text[19] == '.',
        forall|i: int|
            0 <= i < 23 && i != 4 && i != 7 && i != 10 && i != 13 && i != 16 && i != 19 ==> '0'
                <= #[trigger] text[i] <= '9',
{
    let (y, mo, d) = choose|y: nat, mo: nat, d: nat| #[trigger]
        valid_date(y as int, mo as int, d as int) && day_number(y as int, mo as int, d as int)
            == secs / 86400 && text == timestamp_text(
            y,
            mo,
            d,
            secs % 86400 / 3600,
            secs % 3600 / 60,
            secs % 60,
            millis,
        );
    lemma_day_of_year(y as int, mo as int, d as int);
    if y >= 10000 {
        if y > 10000 {
            lemma_years_in_order(10000, y as int);
        }
    }
    reveal_strlit("-");
    reveal_strlit(" ");
    reveal_strlit(":");
    reveal_strlit(".");
    lemma_zero_filled_len(y, 4);
    lemma_zero_filled_len(mo, 2);
    lemma_zero_filled_len(d, 2);
    lemma_zero_filled_len(secs % 86400 / 3600, 2);
    lemma_zero_filled_len(secs % 3600 / 60, 2);
    lemma_zero_filled_len(secs % 60, 2);
    lemma_zero_filled_len(millis, 3);
}

// ── Laws ──────────────────────────────────────────────────────────

/// The calendar begins with the Unix epoch, and each day has the number after
/// that of the day before it: within a month, from month to month and from year
/// to year.
pub proof fn days_are_numbered_in_order(y: int, m: int, d: int)
    ensures
        day_number(1970, 1, 1) == 0,
        day_number(y, m, d + 1) == day_number(y, m, d) + 1,
        1 <= m < 12 ==> day_number(y, m + 1, 1) == day_number(y, m, month_days(y, m)) + 1,
        day_number(y + 1, 1, 1) == day_number(y, 12, 31) + 1,
{
    reveal_with_fuel(days_before_month, 13);
    assert(year_start(y + 1) == year_start(y) + year_days(y)) by {
        lemma_year_start(y);
        lemma_year_start(y + 1);
        lemma_leaps_step(y);
    }
}

/// The months have the lengths that they have, which makes up the length of the
/// year.
pub proof fn the_months_make_up_the_year(y: int)
    ensures
        month_days(y, 1) == 31,
        month_days(y, 2) == 28 || month_days(y, 2) == 29,
        month_days(y, 3) == 31,
        month_days(y, 4) == 30,
        month_days(y, 5) == 31,
        month_days(y, 6) == 30,
        month_days(y, 7) == 31,
        month_days(y, 8) == 31,
        month_days(y, 9) == 30,
        month_days(y, 10) == 31,
        month_days(y, 11) == 30,
        month_days(y, 12) == 31,
        year_days(y) == 337 + month_days(y, 2),
        days_before_month(y, 13) == year_days(y),
{
    reveal_with_fuel(days_before_month, 14);
}

/// The leap years come every fourth year, but for the centuries that do not
/// divide by four hundred.
pub proof fn leap_years_come_every_fourth_year(y: int)
    ensures
        month_days(4 * y, 2) == 29 <==> y % 25 != 0 || y % 100 == 0,
        month_days(4 * y + 1, 2) == 28,
        month_days(4 * y + 2, 2) == 28,
        month_days(4 * y + 3, 2) == 28,
{
    assert((4 * y) % 4 == 0);
    assert((4 * y) % 100 == 0 <==> y % 25 == 0);
    assert((4 * y) % 400 == 0 <==> y % 100 == 0);
    assert((4 * y + 1) % 4 == 1);
    assert((4 * y + 2) % 4 == 2);
    assert((4 * y + 3) % 4 == 3);
}

/// The calendar repeats itself every 400 years, which have 146097 days.
pub proof fn the_calendar_repeats_every_400_years(y: int, m: int, d: int)
    requires
        1 <= m <= 12,
    ensures
        day_number(y + 400, m, d) == day_number(y, m, d) + 146_097,
{
    lemma_year_start(y);
    lemma_year_start(y + 400);
    lemma_within_an_era(1, y - 1, 4, 100);
    lemma_within_an_era(1, y - 1, 100, 4);
    lemma_within_an_era(1, y - 1, 400, 1);
    lemma_within_an_era(1, y, 4, 100);
    lemma_within_an_era(1, y, 100, 4);
    lemma_within_an_era(1, y, 400, 1);
    assert(leap(y + 400) == leap(y));
    reveal_with_fuel(days_before_month, 13);
}

/// A later date has the higher number.
pub proof fn later_dates_have_higher_numbers(a: (int, int, int), b: (int, int, int))
    requires
        valid_date(a.0, a.1, a.2),
        valid_date(b.0, b.1, b.2),
        a.0 < b.0 || (a.0 == b.0 && (a.1 < b.1 || (a.1 == b.1 && a.2 < b.2))),
    ensures
        day_number(a.0, a.1, a.2) < day_number(b.0, b.1, b.2),
{
    lemma_day_of_year(a.0, a.1, a.2);
    lemma_day_of_year(b.0, b.1, b.2);
    if a.0 < b.0 {
        lemma_years_in_order(a.0, b.0);
    }
    reveal_with_fuel(days_before_month, 13);
}

proof fn lemma_zeros_add_nothing(z: int, s: Seq<char>)
    ensures
        digits_value(repeated('0', z) + s) == digits_value(s),
    decreases s.len(), z,
{
    let t = repeated('0', z) + s;
    if s.len() > 0 {
        lemma_zeros_add_nothing(z, s.drop_last());
        assert(t.drop_last() =~= repeated('0', z) + s.drop_last());
        assert(t.last() == s.last());
    } else if z > 0 {
        lemma_zeros_add_nothing(z - 1, s);
        assert(t.drop_last() =~= repeated('0', z - 1) + s);
        assert(t.last() == '0');
    } else {
        assert(t =~= s);
    }
}

proof fn lemma_zero_filled_value(n: nat, width: int)
    ensures
        digits_value(zero_filled(n, width)) == n,
{
    let s = decimal(n);
    a_written_number_is_read_back(n, n, Seq::empty(), Seq::empty());
    lemma_decimal_begins_with_a_digit(n);
    lemma_zeros_add_nothing(width - s.len(), s);
}

proof fn lemma_decimal_begins_with_a_digit(n: nat)
    ensures
        decimal(n).len() > 0,
        '0' <= decimal(n)[0] <= '9',
    decreases n,
{
    if n >= 10 {
        lemma_decimal_begins_with_a_digit(n / 10);
    }
}

/// The number that stands in a text between two positions.
pub open spec fn number_at(text: Seq<char>, from: int, to: int) -> nat {
    digits_value(text.subrange(from, to))
}

proof fn lemma_parts_of_a_timestamp(
    y: Seq<char>,
    mo: Seq<char>,
    d: Seq<char>,
    h: Seq<char>,
    mi: Seq<char>,
    s: Seq<char>,
    ms: Seq<char>,
)
    requires
        y.len() == 4,
        mo.len() == 2,
        d.len() == 2,
        h.len() == 2,
        mi.len() == 2,
        s.len() == 2,
        ms.len() == 3,
    ensures
        ({
            let text = y + "-"@ + mo + "-"@ + d + " "@ + h + ":"@ + mi + ":"@ + s + "."@ + ms;
            &&& text.subrange(0, 4) == y
            &&& text.subrange(5, 7) == mo
            &&& text.subrange(8, 10) == d
            &&& text.subrange(11, 13) == h
            &&& text.subrange(14, 16) == mi
            &&& text.subrange(17, 19) == s
            &&& text.subrange(20, 23) == ms
        }),
{
    reveal_strlit("-");
    reveal_strlit(" ");
    reveal_strlit(":");
    reveal_strlit(".");
    let text = y + "-"@ + mo + "-"@ + d + " "@ + h + ":"@ + mi + ":"@ + s + "."@ + ms;
    assert(text.subrange(0, 4) =~= y);
    assert(text.subrange(5, 7) =~= mo);
    assert(text.subrange(8, 10) =~= d);
    assert(text.subrange(11, 13) =~= h);
    assert(text.subrange(14, 16) =~= mi);
    assert(text.subrange(17, 19) =~= s);
    assert(text.subrange(20, 23) =~= ms);
}

proof fn lemma_time_of_day(secs: nat)
    ensures
        secs % 86400 / 3600 < 24,
        secs % 3600 / 60 < 60,
        secs == secs / 86400 * 86400 + secs % 86400 / 3600 * 3600 + secs % 3600 / 60 * 60 + secs
            % 60,
{
}

/// A timestamp before the year 10000 tells its moment: the date and the time of
/// day that stand in it make up the seconds since the epoch, and the milliseconds
/// are those of the moment.
pub proof fn a_timestamp_tells_its_moment(text: Seq<char>, secs: nat, millis: nat)
    requires
        is_timestamp_of(text, secs, millis),
        secs / 86400 < year_start(10000),
        millis < 1000,
    ensures
        ({
            let (y, mo, d) = (number_at(text, 0, 4), number_at(text, 5, 7), number_at(text, 8, 10));
            let (h, mi, s) = (
                number_at(text, 11, 13),
                number_at(text, 14, 16),
                number_at(text, 17, 19),
            );
            &&& valid_date(y as int, mo as int, d as int)
            &&& h < 24
            &&& mi < 60
            &&& s < 60
            &&& secs == day_number(y as int, mo as int, d as int) * 86400 + h * 3600 + mi * 60 + s
            &&& millis == number_at(text, 20, 23)
        }),
{
    let (y, mo, d) = choose|y: nat, mo: nat, d: nat| #[trigger]
        valid_date(y as int, mo as int, d as int) && day_number(y as int, mo as int, d as int)
            == secs / 86400 && text == timestamp_text(
            y,
            mo,
            d,
            secs % 86400 / 3600,
            secs % 3600 / 60,
            secs % 60,
            millis,
        );
    lemma_day_of_year(y as int, mo as int, d as int);
    if y > 10000 {
        lemma_years_in_order(10000, y as int);
    }
    let (h, mi, s) = (secs % 86400 / 3600, secs % 3600 / 60, secs % 60);
    lemma_time_of_day(secs);
    lemma_zero_filled_len(y, 4);
    lemma_zero_filled_len(mo, 2);
    lemma_zero_filled_len(d, 2);
    lemma_zero_filled_len(h, 2);
    lemma_zero_filled_len(mi, 2);
    lemma_zero_filled_len(s, 2);
    lemma_zero_filled_len(millis, 3);
    lemma_zero_filled_value(y, 4);
    lemma_zero_filled_value(mo, 2);
    lemma_zero_filled_value(d, 2);
    lemma_zero_filled_value(h, 2);
    lemma_zero_filled_value(mi, 2);
    lemma_zero_filled_value(s, 2);
    lemma_zero_filled_value(millis, 3);
    lemma_parts_of_a_timestamp(
        zero_filled(y, 4),
        zero_filled(mo, 2),
        zero_filled(d, 2),
        zero_filled(h, 2),
        zero_filled(mi, 2),
        zero_filled(s, 2),
        zero_filled(millis, 3),
    );
}

/// A line of the log begins with its timestamp in square brackets, and ends with
/// its message and a line feed; between them stands the number of the process.
pub proof fn a_log_line_tells_when_who_and_what(timestamp: Seq<char>, pid: nat, message: Seq<char>)
    ensures
        ({
            let line = log_text(timestamp, pid, message);
            let n = timestamp.len() as int;
            let who = decimal(pid).len() as int;
            &&& line[0] == '['
            &&& line.subrange(1, n + 1) == timestamp
            &&& line.subrange(n + 1, n + 3) == "] "@
            &&& line.subrange(n + 3, n + 3 + who) == decimal(pid)
            &&& line.subrange(n + 3 + who, n + 5 + who) == ": "@
            &&& line.subrange(n + 5 + who, n + 5 + who + message.len()) == message
            &&& line.len() == n + who + message.len() + 6
            &&& line.last() == '\n'
        }),
{
    let line = log_text(timestamp, pid, message);
    let n = timestamp.len() as int;
    let who = decimal(pid).len() as int;
    reveal_strlit("[");
    reveal_strlit("] ");
    reveal_strlit(": ");
    reveal_strlit("\n");
    assert(line.subrange(1, n + 1) =~= timestamp);
    assert(line.subrange(n + 1, n + 3) =~= "] "@);
    assert(line.subrange(n + 3, n + 3 + who) =~= decimal(pid));
    assert(line.subrange(n + 3 + who, n + 5 + who) =~= ": "@);
    assert(line.subrange(n + 5 + who, n + 5 + who + message.len()) =~= message);
}

}
