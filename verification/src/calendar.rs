//! Proleptic Gregorian calendar arithmetic: splitting a Unix second count
//! (shifted by a zone offset) into a civil date and time of day, and the
//! absolute "dd.MM, hh:mm" rendering of a reset instant.

use vstd::arithmetic::div_mod::{
    lemma_fundamental_div_mod, lemma_fundamental_div_mod_converse, lemma_mod_mod,
    lemma_mod_multiples_vanish,
};
use vstd::prelude::*;

use crate::time::two_digit_string;
use crate::time::two_digits;

verus! {

/// Lowest Unix second a civil timestamp may come from. Matches the range
/// of timestamps a provider can report (year -9999 onward).
pub const CIVIL_SECONDS_MIN: i64 = -377705116800;

/// Highest Unix second a civil timestamp may come from (end of year 9999).
pub const CIVIL_SECONDS_MAX: i64 = 253402300799;

pub open spec fn is_leap_year(y: int) -> bool {
    (y % 4 == 0 && y % 100 != 0) || y % 400 == 0
}

pub open spec fn year_length(y: int) -> int {
    if is_leap_year(y) {
        366
    } else {
        365
    }
}

pub open spec fn month_length(y: int, m: int) -> int {
    if m == 1 {
        31
    } else if m == 2 {
        if is_leap_year(y) {
            29
        } else {
            28
        }
    } else if m == 3 {
        31
    } else if m == 4 {
        30
    } else if m == 5 {
        31
    } else if m == 6 {
        30
    } else if m == 7 {
        31
    } else if m == 8 {
        31
    } else if m == 9 {
        30
    } else if m == 10 {
        31
    } else if m == 11 {
        30
    } else {
        31
    }
}

/// Days in year `y` before the first of month `m`.
pub open spec fn days_before_month(y: int, m: int) -> int
    decreases m,
{
    if m <= 1 {
        0
    } else {
        days_before_month(y, m - 1) + month_length(y, m - 1)
    }
}

/// Days between 1970-01-01 and the first day of year `y` (negative for
/// earlier years).
pub open spec fn days_before_year(y: int) -> int
    decreases (if y >= 1970 {
        y - 1970
    } else {
        1970 - y
    }),
{
    if y > 1970 {
        days_before_year(y - 1) + year_length(y - 1)
    } else if y < 1970 {
        days_before_year(y + 1) - year_length(y)
    } else {
        0
    }
}

/// Day number (days since 1970-01-01) of the civil date `y-m-d`.
pub open spec fn days_from_civil(y: int, m: int, d: int) -> int {
    days_before_year(y) + days_before_month(y, m) + (d - 1)
}

/// Walks forward from year `y` until day offset `dn` falls inside a year.
pub open spec fn year_walk_up(y: int, dn: int) -> (int, int)
    decreases dn,
{
    if dn < 0 || dn < year_length(y) {
        (y, dn)
    } else {
        year_walk_up(y + 1, dn - year_length(y))
    }
}

/// Walks backward from year `y` until day offset `dn` becomes non-negative.
pub open spec fn year_walk_down(y: int, dn: int) -> (int, int)
    decreases -dn,
{
    if dn >= 0 {
        (y, dn)
    } else if dn + year_length(y - 1) >= 0 {
        (y - 1, dn + year_length(y - 1))
    } else {
        year_walk_down(y - 1, dn + year_length(y - 1))
    }
}

/// Year and day-of-year (0-based) of a day number.
pub open spec fn year_of_day(dn: int) -> (int, int) {
    if dn >= 0 {
        year_walk_up(1970, dn)
    } else {
        year_walk_down(1970, dn)
    }
}

/// Month (1-12) and day (1-based) for a 0-based day-of-year, scanning from
/// month `m` with `doy` days left.
pub open spec fn month_walk(y: int, m: int, doy: int) -> (int, int)
    decreases 12 - m,
{
    if m >= 12 || doy < month_length(y, m) {
        (m, doy + 1)
    } else {
        month_walk(y, m + 1, doy - month_length(y, m))
    }
}

/// Full civil decomposition of a local second count:
/// (year, month, day, hour, minute, second).
pub open spec fn civil_of(local: int) -> (int, int, int, int, int, int) {
    let dn = local / 86400;
    let sod = local % 86400;
    let yd = year_of_day(dn);
    let md = month_walk(yd.0, 1, yd.1);
    (yd.0, md.0, md.1, sod / 3600, (sod % 3600) / 60, sod % 60)
}

pub broadcast proof fn lemma_days_before_year_succ(y: int)
    ensures
        #[trigger] days_before_year(y + 1) == days_before_year(y) + year_length(y),
{
    if y >= 1970 {
        assert(days_before_year(y + 1) == days_before_year(y) + year_length(y));
    } else {
        assert(days_before_year(y) == days_before_year(y + 1) - year_length(y));
    }
}

proof fn lemma_year_walk_up(y: int, dn: int)
    requires
        0 <= dn,
    ensures
        ({
            let (ry, rdoy) = year_walk_up(y, dn);
            &&& 0 <= rdoy < year_length(ry)
            &&& days_before_year(ry) + rdoy == days_before_year(y) + dn
            &&& ry >= y
        }),
    decreases dn,
{
    if dn < year_length(y) {
    } else {
        lemma_days_before_year_succ(y);
        lemma_year_walk_up(y + 1, dn - year_length(y));
    }
}

proof fn lemma_year_walk_down(y: int, dn: int)
    requires
        dn < 0,
    ensures
        ({
            let (ry, rdoy) = year_walk_down(y, dn);
            &&& 0 <= rdoy < year_length(ry)
            &&& days_before_year(ry) + rdoy == days_before_year(y) + dn
            &&& ry < y
        }),
    decreases -dn,
{
    lemma_days_before_year_succ(y - 1);
    if dn + year_length(y - 1) >= 0 {
    } else {
        lemma_year_walk_down(y - 1, dn + year_length(y - 1));
    }
}

proof fn lemma_months_cover_year(y: int)
    ensures
        days_before_month(y, 13) == year_length(y),
{
    reveal_with_fuel(days_before_month, 14);
}

proof fn lemma_month_walk(y: int, m: int, doy: int)
    requires
        1 <= m <= 12,
        0 <= doy,
        days_before_month(y, m) + doy < year_length(y),
    ensures
        ({
            let (rm, rd) = month_walk(y, m, doy);
            &&& 1 <= rm <= 12
            &&& 1 <= rd <= month_length(y, rm)
            &&& days_before_month(y, rm) + (rd - 1) == days_before_month(y, m) + doy
        }),
    decreases 12 - m,
{
    if m >= 12 || doy < month_length(y, m) {
        if m >= 12 && doy >= month_length(y, m) {
            lemma_months_cover_year(y);
            assert(days_before_month(y, 13) == days_before_month(y, 12) + month_length(y, 12));
        }
    } else {
        lemma_month_walk(y, m + 1, doy - month_length(y, m));
    }
}

/// Later years start on later days.
proof fn lemma_days_before_year_mono(a: int, b: int)
    requires
        a <= b,
    ensures
        days_before_year(a) <= days_before_year(b),
        a < b ==> days_before_year(a) + year_length(a) <= days_before_year(b),
    decreases b - a,
{
    if a < b {
        lemma_days_before_year_succ(a);
        lemma_days_before_year_mono(a + 1, b);
    }
}

/// Later months of a year start on later days of the year.
proof fn lemma_days_before_month_mono(y: int, a: int, b: int)
    requires
        1 <= a <= b,
    ensures
        days_before_month(y, a) <= days_before_month(y, b),
        a < b ==> days_before_month(y, a) + month_length(y, a) <= days_before_month(y, b),
    decreases b - a,
{
    if a < b {
        lemma_days_before_month_mono(y, a + 1, b);
    }
}

/// The forward year walk lands on the year a day number was built from.
proof fn lemma_year_walk_up_inverts(y0: int, y: int, doy: int)
    requires
        1970 <= y0 <= y,
        0 <= doy < year_length(y),
    ensures
        year_walk_up(y0, days_before_year(y) - days_before_year(y0) + doy) == (y, doy),
    decreases y - y0,
{
    let dn = days_before_year(y) - days_before_year(y0) + doy;
    if y0 == y {
    } else {
        lemma_days_before_year_succ(y0);
        lemma_days_before_year_mono(y0 + 1, y);
        assert(dn >= year_length(y0));
        lemma_year_walk_up_inverts(y0 + 1, y, doy);
        assert(year_walk_up(y0, dn) == year_walk_up(y0 + 1, dn - year_length(y0)));
    }
}

/// The backward year walk lands on the year a day number was built from.
proof fn lemma_year_walk_down_inverts(y0: int, y: int, doy: int)
    requires
        y < y0 <= 1970,
        0 <= doy < year_length(y),
    ensures
        year_walk_down(y0, days_before_year(y) - days_before_year(y0) + doy) == (y, doy),
    decreases y0 - y,
{
    let dn = days_before_year(y) - days_before_year(y0) + doy;
    lemma_days_before_year_succ(y);
    lemma_days_before_year_mono(y + 1, y0);
    assert(dn < 0);
    lemma_days_before_year_succ(y0 - 1);
    if y == y0 - 1 {
        assert(dn + year_length(y0 - 1) == doy);
    } else {
        lemma_days_before_year_mono(y + 1, y0 - 1);
        assert(dn + year_length(y0 - 1) < 0);
        lemma_year_walk_down_inverts(y0 - 1, y, doy);
        assert(year_walk_down(y0, dn) == year_walk_down(
            y0 - 1,
            days_before_year(y) - days_before_year(y0 - 1) + doy,
        ));
    }
}

/// The month walk lands on the month a day-of-year was built from.
proof fn lemma_month_walk_inverts(y: int, m0: int, m: int, d: int)
    requires
        1 <= m0 <= m <= 12,
        1 <= d <= month_length(y, m),
    ensures
        month_walk(y, m0, days_before_month(y, m) - days_before_month(y, m0) + (d - 1)) == (
        m,
        d,
        ),
    decreases m - m0,
{
    let doy = days_before_month(y, m) - days_before_month(y, m0) + (d - 1);
    if m0 == m {
    } else {
        lemma_days_before_month_mono(y, m0, m);
        assert(doy >= month_length(y, m0));
        lemma_month_walk_inverts(y, m0 + 1, m, d);
        assert(month_walk(y, m0, doy) == month_walk(y, m0 + 1, doy - month_length(y, m0)));
    }
}

/// Law: the civil decomposition inverts the day-number construction.
/// Putting a valid civil date and time of day together into a second
/// count and splitting it again gives back exactly the same fields —
/// for any year, leap or not, before or after 1970.
pub proof fn lemma_civil_round_trip(y: int, m: int, d: int, hh: int, mi: int, ss: int)
    requires
        1 <= m <= 12,
        1 <= d <= month_length(y, m),
        0 <= hh < 24,
        0 <= mi < 60,
        0 <= ss < 60,
    ensures
        civil_of(days_from_civil(y, m, d) * 86400 + hh * 3600 + mi * 60 + ss) == (
        y,
        m,
        d,
        hh,
        mi,
        ss,
        ),
{
    let dn = days_from_civil(y, m, d);
    let sod = hh * 3600 + mi * 60 + ss;
    let t = dn * 86400 + sod;
    lemma_fundamental_div_mod_converse(t, 86400, dn, sod);

    let doy = days_before_month(y, m) + (d - 1);
    lemma_days_before_month_mono(y, 1, m);
    lemma_days_before_month_mono(y, m, 12);
    lemma_months_cover_year(y);
    assert(doy < year_length(y)) by {
        assert(days_before_month(y, 13) == days_before_month(y, 12) + month_length(y, 12));
    }
    if dn >= 0 {
        if y >= 1970 {
            lemma_year_walk_up_inverts(1970, y, doy);
        } else {
            lemma_days_before_year_succ(y);
            lemma_days_before_year_mono(y + 1, 1970);
            assert(false);
        }
    } else {
        if y < 1970 {
            lemma_year_walk_down_inverts(1970, y, doy);
        } else {
            lemma_days_before_year_mono(1970, y);
            assert(false);
        }
    }
    assert(year_of_day(dn) == (y, doy));
    lemma_month_walk_inverts(y, 1, m, d);

    lemma_fundamental_div_mod_converse(sod, 3600, hh, mi * 60 + ss);
    lemma_fundamental_div_mod_converse(mi * 60 + ss, 60, mi, ss);
    lemma_mod_mod(sod, 60, 60);
    lemma_fundamental_div_mod_converse(sod, 60, hh * 60 + mi, ss);
}

/// A civil date and time of day, as plain fields.
#[derive(Clone, Copy, PartialEq, Eq, Structural, Debug)]
pub struct CivilDateTime {
    pub year: i64,
    pub month: u8,
    pub day: u8,
    pub hour: u8,
    pub minute: u8,
    pub second: u8,
}

impl CivilDateTime {
    /// Field ranges of a valid civil date and time.
    pub open spec fn wf(&self) -> bool {
        &&& 1 <= self.month <= 12
        &&& 1 <= self.day <= month_length(self.year as int, self.month as int)
        &&& self.hour < 24
        &&& self.minute < 60
        &&& self.second < 60
    }
}

/// Whether year `y` is a leap year in the proleptic Gregorian calendar.
pub fn is_leap_year_exec(y: i64) -> (r: bool)
    requires
        -12000 <= y,
        y <= 12000,
    ensures
        r == is_leap_year(y as int),
{
    let yy: u64 = (y + 12000) as u64;
    proof {
        lemma_mod_multiples_vanish(3000, y as int, 4);
        lemma_mod_multiples_vanish(120, y as int, 100);
        lemma_mod_multiples_vanish(30, y as int, 400);
        assert(yy == 4 * 3000 + y);
        assert(yy == 100 * 120 + y);
        assert(yy == 400 * 30 + y);
    }
    (yy % 4 == 0 && yy % 100 != 0) || yy % 400 == 0
}

/// Number of days in year `y`.
pub fn year_length_exec(y: i64) -> (r: u64)
    requires
        -12000 <= y,
        y <= 12000,
    ensures
        r == year_length(y as int),
{
    if is_leap_year_exec(y) {
        366
    } else {
        365
    }
}

/// Number of days in month `m` of year `y`.
pub fn month_length_exec(y: i64, m: u64) -> (r: u64)
    requires
        -12000 <= y,
        y <= 12000,
        1 <= m <= 12,
    ensures
        r == month_length(y as int, m as int),
{
    match m {
        1 => 31,
        2 => if is_leap_year_exec(y) {
            29
        } else {
            28
        },
        3 => 31,
        4 => 30,
        5 => 31,
        6 => 30,
        7 => 31,
        8 => 31,
        9 => 30,
        10 => 31,
        11 => 30,
        _ => 31,
    }
}

/// Splits `secs + offset_seconds` (Unix seconds shifted into local time)
/// into its civil date and time of day.
pub fn civil_from_unix(secs: i64, offset_seconds: i32) -> (c: CivilDateTime)
    requires
        -93599 <= offset_seconds <= 93599,
        CIVIL_SECONDS_MIN <= secs + offset_seconds <= CIVIL_SECONDS_MAX,
    ensures
        c.wf(),
        ({
            let cv = civil_of(secs + offset_seconds);
            &&& c.year == cv.0
            &&& c.month == cv.1
            &&& c.day == cv.2
            &&& c.hour == cv.3
            &&& c.minute == cv.4
            &&& c.second == cv.5
        }),
        days_from_civil(c.year as int, c.month as int, c.day as int) * 86400 + c.hour * 3600
            + c.minute * 60 + c.second == secs + offset_seconds,
{
    let local: i64 = secs + offset_seconds as i64;
    let ghost locali = local as int;
    let dn: i64;
    let sod: u64;
    if local >= 0 {
        dn = ((local as u64) / 86400) as i64;
        sod = (local as u64) % 86400;
        proof {
            lemma_fundamental_div_mod(local as int, 86400);
            lemma_fundamental_div_mod_converse(locali, 86400, dn as int, sod as int);
        }
    } else {
        let neg: u64 = (-local) as u64;
        let q: u64 = (neg - 1) / 86400;
        let r: u64 = (neg - 1) % 86400;
        dn = -(q as i64) - 1;
        sod = 86399 - r;
        proof {
            lemma_fundamental_div_mod((neg - 1) as int, 86400);
            assert(locali == (dn as int) * 86400 + sod);
            lemma_fundamental_div_mod_converse(locali, 86400, dn as int, sod as int);
        }
    }
    assert(dn == locali / 86400 && sod == locali % 86400);
    assert(-4371587 <= dn <= 2932897);

    let ghost dn0 = dn as int;
    let mut year: i64 = 1970;
    let mut doy: u64;
    if dn >= 0 {
        let mut rem: u64 = dn as u64;
        let mut yl: u64 = year_length_exec(year);
        while rem >= yl
            invariant
                1970 <= year <= 10006,
                yl == year_length(year as int),
                rem <= dn0,
                0 <= dn0 <= 2932897,
                year_walk_up(1970, dn0) == year_walk_up(year as int, rem as int),
                days_before_year(year as int) + rem == dn0,
                365 * (year - 1970) + rem <= dn0,
            decreases rem,
        {
            assert(year_walk_up(year as int, rem as int) == year_walk_up(
                year as int + 1,
                rem - year_length(year as int),
            ));
            rem = rem - yl;
            year = year + 1;
            yl = year_length_exec(year);
        }
        proof {
            lemma_year_walk_up(1970, dn0);
        }
        doy = rem;
    } else {
        let mut rem: i64 = dn;
        while rem < 0
            invariant
                year <= 1970,
                -4371587 <= dn0 < 0,
                dn0 <= rem,
                year_walk_down(1970, dn0) == year_walk_down(year as int, rem as int),
                days_before_year(year as int) + rem == dn0,
                365 * (1970 - year) <= rem - dn0,
            decreases (if rem < 0 { -(rem as int) } else { 0 }),
        {
            assert(365 * (1970 - year) <= -dn0);
            year = year - 1;
            let yl = year_length_exec(year);
            assert(year_walk_down(year as int + 1, rem as int) == year_walk_down(
                year as int,
                rem + year_length(year as int),
            ));
            rem = rem + yl as i64;
        }
        proof {
            lemma_year_walk_down(1970, dn0);
            assert(year_walk_down(year as int, rem as int) == (year as int, rem as int));
        }
        doy = rem as u64;
    }
    assert((year as int, doy as int) == year_of_day(dn0));
    assert(0 <= doy < year_length(year as int));
    assert(days_before_year(year as int) + doy == dn0);
    assert(-10007 <= year <= 10006);

    let ghost doy0 = doy as int;
    let mut m: u64 = 1;
    let mut d: u64 = doy;
    let mut ml: u64 = month_length_exec(year, 1);
    while m < 12 && d >= ml
        invariant
            1 <= m <= 12,
            -10007 <= year <= 10006,
            ml == month_length(year as int, m as int),
            d <= doy0 <= 366,
            month_walk(year as int, 1, doy0) == month_walk(year as int, m as int, d as int),
            days_before_month(year as int, m as int) + d == doy0,
        decreases 12 - m,
    {
        assert(month_walk(year as int, m as int, d as int) == month_walk(
            year as int,
            m as int + 1,
            d - month_length(year as int, m as int),
        ));
        d = d - ml;
        m = m + 1;
        ml = month_length_exec(year, m);
    }
    proof {
        lemma_month_walk(year as int, 1, doy0);
        assert(month_walk(year as int, m as int, d as int) == (m as int, d + 1 as int));
    }
    let month: u8 = m as u8;
    let day: u8 = (d + 1) as u8;

    let hour: u8 = (sod / 3600) as u8;
    let minute: u8 = ((sod % 3600) / 60) as u8;
    let second: u8 = (sod % 60) as u8;
    proof {
        lemma_fundamental_div_mod(sod as int, 3600);
        lemma_fundamental_div_mod((sod as int) % 3600, 60);
        lemma_mod_mod(sod as int, 60, 60);
        lemma_fundamental_div_mod(sod as int, 60);
    }
    CivilDateTime { year, month, day, hour, minute, second }
}

/// Local wall-clock rendering "dd.MM, hh:mm" of a reset instant.
pub open spec fn absolute_text(local: int) -> Seq<char> {
    let cv = civil_of(local);
    two_digits(cv.2) + "."@ + two_digits(cv.1) + ", "@ + two_digits(cv.3) + ":"@ + two_digits(
        cv.4,
    )
}

/// Whether `s` is the absolute rendering of `secs` under the offset
/// `off`.
pub open spec fn shows_local_instant(s: Seq<char>, secs: int, off: int) -> bool {
    s == absolute_text(secs + off)
}

/// Renders `secs` as the wall-clock date and time "dd.MM, hh:mm" in the
/// system time zone, using the zone's offset at that instant.
pub fn format_absolute_time_local(secs: i64) -> (s: String)
    requires
        crate::model::TIMESTAMP_MIN <= secs <= crate::model::TIMESTAMP_MAX,
    ensures
        exists|off: int|
            -93599 <= off <= 93599 && #[trigger] shows_local_instant(s@, secs as int, off),
{
    let off = crate::clock::system_utc_offset(secs);
    let s = format_absolute_time(secs, off);
    proof {
        assert(shows_local_instant(s@, secs as int, off as int));
    }
    s
}

/// Renders `secs` as the local date and time "dd.MM, hh:mm" under the
/// given zone offset.
pub fn format_absolute_time(secs: i64, offset_seconds: i32) -> (s: String)
    requires
        -93599 <= offset_seconds <= 93599,
        CIVIL_SECONDS_MIN <= secs + offset_seconds <= CIVIL_SECONDS_MAX,
    ensures
        s@ == absolute_text(secs + offset_seconds),
{
    let c = civil_from_unix(secs, offset_seconds);
    let mut s = two_digit_string(c.day as u64);
    s.append(".");
    s.append(two_digit_string(c.month as u64).as_str());
    s.append(", ");
    s.append(two_digit_string(c.hour as u64).as_str());
    s.append(":");
    s.append(two_digit_string(c.minute as u64).as_str());
    proof {
        assert(s@ =~= absolute_text(secs + offset_seconds));
    }
    s
}

} // verus!
