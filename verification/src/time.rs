//! Pure time formatting: decimal rendering, the relative "resets in"
//! string, and the local wall-clock absolute form. Everything here is a
//! function of plain integer inputs; reading the clock or the system time
//! zone happens behind the trusted wrappers in `clock`.

use vstd::prelude::*;

verus! {

/// The character for one decimal digit.
pub open spec fn digit_char(d: int) -> char {
    if d == 0 {
        '0'
    } else if d == 1 {
        '1'
    } else if d == 2 {
        '2'
    } else if d == 3 {
        '3'
    } else if d == 4 {
        '4'
    } else if d == 5 {
        '5'
    } else if d == 6 {
        '6'
    } else if d == 7 {
        '7'
    } else if d == 8 {
        '8'
    } else {
        '9'
    }
}

/// Decimal rendering of a non-negative integer, without leading zeros
/// (a single `'0'` for zero).
pub open spec fn dec_digits(n: int) -> Seq<char>
    decreases n,
{
    if n < 10 {
        seq![digit_char(n)]
    } else {
        dec_digits(n / 10) + seq![digit_char(n % 10)]
    }
}

/// Decimal rendering of `n < 100`, zero-padded to exactly two digits.
pub open spec fn two_digits(n: int) -> Seq<char> {
    seq![digit_char(n / 10), digit_char(n % 10)]
}

/// The digit characters as one-character string slices.
fn digit_str(d: u64) -> (s: &'static str)
    requires
        d < 10,
    ensures
        s@ == seq![digit_char(d as int)],
{
    proof {
        reveal_strlit("0");
        reveal_strlit("1");
        reveal_strlit("2");
        reveal_strlit("3");
        reveal_strlit("4");
        reveal_strlit("5");
        reveal_strlit("6");
        reveal_strlit("7");
        reveal_strlit("8");
        reveal_strlit("9");
    }
    let s = match d {
        0 => "0",
        1 => "1",
        2 => "2",
        3 => "3",
        4 => "4",
        5 => "5",
        6 => "6",
        7 => "7",
        8 => "8",
        _ => "9",
    };
    proof {
        assert(s@ =~= seq![digit_char(d as int)]);
    }
    s
}

/// Renders `n` in decimal without leading zeros.
pub fn u64_string(n: u64) -> (s: String)
    ensures
        s@ == dec_digits(n as int),
    decreases n,
{
    if n < 10 {
        String::from_str(digit_str(n))
    } else {
        let mut s = u64_string(n / 10);
        s.append(digit_str(n % 10));
        s
    }
}

/// Renders `n < 100` as exactly two decimal digits.
pub fn two_digit_string(n: u64) -> (s: String)
    requires
        n < 100,
    ensures
        s@ == two_digits(n as int),
{
    let mut s = String::from_str(digit_str(n / 10));
    s.append(digit_str(n % 10));
    proof {
        assert(s@ =~= two_digits(n as int));
    }
    s
}

/// Text of the time remaining until a reset instant, with unit collapsing:
/// days+hours from one day up, hours+minutes from one hour up, minutes
/// below that, and `"now"` once the instant is not in the future.
pub open spec fn reset_time_text(resets_at: int, now: int) -> Seq<char> {
    let diff = resets_at - now;
    if diff <= 0 {
        "now"@
    } else {
        let days = diff / 86400;
        let hours = (diff % 86400) / 3600;
        let mins = (diff % 3600) / 60;
        if days > 0 {
            dec_digits(days) + "d "@ + dec_digits(hours) + "h"@
        } else if hours > 0 {
            dec_digits(hours) + "h "@ + dec_digits(mins) + "m"@
        } else {
            dec_digits(mins) + "m"@
        }
    }
}

/// Renders the duration from `now` until `resets_at` (both Unix seconds).
pub fn format_reset_time(resets_at: i64, now: i64) -> (s: String)
    ensures
        s@ == reset_time_text(resets_at as int, now as int),
{
    if resets_at <= now {
        return String::from_str("now");
    }
    let diff: u64 = (resets_at as i128 - now as i128) as u64;
    assert(diff == resets_at - now);
    let days: u64 = diff / 86400;
    let hours: u64 = (diff % 86400) / 3600;
    let mins: u64 = (diff % 3600) / 60;
    let mut s: String;
    if days > 0 {
        s = u64_string(days);
        s.append("d ");
        s.append(u64_string(hours).as_str());
        s.append("h");
    } else if hours > 0 {
        s = u64_string(hours);
        s.append("h ");
        s.append(u64_string(mins).as_str());
        s.append("m");
    } else {
        s = u64_string(mins);
        s.append("m");
    }
    proof {
        assert(s@ =~= reset_time_text(resets_at as int, now as int));
    }
    s
}

} // verus!
