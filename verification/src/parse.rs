//! A small RFC 3339 timestamp parser: fixed-position date and time
//! digits, an optional `Z` or `±hh:mm` zone suffix, surrounding ASCII
//! whitespace ignored. Returns whole Unix seconds. Years before 1970
//! count from 1970, digits are required where the format puts them, and
//! a month outside 1..=12 is rejected.

use vstd::prelude::*;

use crate::calendar::days_before_month;
use crate::calendar::days_before_year;
use crate::calendar::month_length_exec;
use crate::calendar::year_length_exec;

verus! {

pub open spec fn is_ascii_ws(c: char) -> bool {
    c == ' ' || c == '\t' || c == '\n' || c == '\r'
}

pub open spec fn spec_trim_start(s: Seq<char>) -> Seq<char>
    decreases s.len(),
{
    if s.len() > 0 && is_ascii_ws(s[0]) {
        spec_trim_start(s.drop_first())
    } else {
        s
    }
}

pub open spec fn spec_trim_end(s: Seq<char>) -> Seq<char>
    decreases s.len(),
{
    if s.len() > 0 && is_ascii_ws(s.last()) {
        spec_trim_end(s.drop_last())
    } else {
        s
    }
}

/// The slice with ASCII whitespace removed from both ends.
pub open spec fn spec_trim(s: Seq<char>) -> Seq<char> {
    spec_trim_end(spec_trim_start(s))
}

pub open spec fn is_digit(c: char) -> bool {
    '0' <= c && c <= '9'
}

pub open spec fn digit_val(c: char) -> int {
    c as int - 48
}

pub open spec fn all_digits(s: Seq<char>) -> bool {
    forall|i: int| 0 <= i < s.len() ==> is_digit(#[trigger] s[i])
}

/// Powers of ten.
pub open spec fn pow10(n: int) -> int
    decreases n,
{
    if n <= 0 {
        1
    } else {
        10 * pow10(n - 1)
    }
}

proof fn lemma_pow10_pos(n: int)
    ensures
        pow10(n) >= 1,
    decreases n,
{
    if n > 0 {
        lemma_pow10_pos(n - 1);
    }
}

proof fn lemma_pow10_mono(a: int, b: int)
    requires
        a <= b,
    ensures
        pow10(a) <= pow10(b),
    decreases b - a,
{
    if a < b {
        lemma_pow10_mono(a, b - 1);
        lemma_pow10_pos(b - 1);
    }
}

/// Value of a digit string, most significant first.
pub open spec fn digits_val(s: Seq<char>) -> int
    decreases s.len(),
{
    if s.len() == 0 {
        0
    } else {
        digits_val(s.drop_last()) * 10 + digit_val(s.last())
    }
}

/// Index of the last occurrence of `c`.
pub open spec fn spec_rfind(s: Seq<char>, c: char) -> Option<int>
    decreases s.len(),
{
    if s.len() == 0 {
        Option::None
    } else if s.last() == c {
        Option::Some(s.len() - 1)
    } else {
        spec_rfind(s.drop_last(), c)
    }
}

/// Number of occurrences of `c`.
pub open spec fn spec_count(s: Seq<char>, c: char) -> int
    decreases s.len(),
{
    if s.len() == 0 {
        0
    } else {
        spec_count(s.drop_last(), c) + (if s.last() == c {
            1int
        } else {
            0int
        })
    }
}

/// Index of the first occurrence of `c`.
pub open spec fn spec_find(s: Seq<char>, c: char) -> Option<int>
    decreases s.len(),
{
    if s.len() == 0 {
        Option::None
    } else if s[0] == c {
        Option::Some(0)
    } else {
        match spec_find(s.drop_first(), c) {
            Option::Some(i) => Option::Some(i + 1),
            Option::None => Option::None,
        }
    }
}

/// Day number of a civil date, counting years before 1970 as 1970.
pub open spec fn days_from_civil_1970(y: int, m: int, d: int) -> int {
    (if y > 1970 {
        days_before_year(y)
    } else {
        0
    }) + days_before_month(y, m) + (d - 1)
}

/// The zone offset a trimmed timestamp string carries: zero for a `Z`
/// suffix or when no sign is found in the last six characters; seconds
/// east of UTC for a `±hh:mm` suffix; no value when the characters after
/// the sign are not two digit groups around one colon.
pub open spec fn spec_tz_offset(t: Seq<char>) -> Option<int> {
    if t.last() == 'Z' {
        Option::Some(0)
    } else {
        let tz = t.subrange(t.len() - 6, t.len() as int);
        let pos = match spec_rfind(tz, '+') {
            Option::Some(p) => Option::Some(p),
            Option::None => spec_rfind(tz, '-'),
        };
        match pos {
            Option::None => Option::Some(0),
            Option::Some(p) => {
                let body = tz.subrange(p + 1, 6);
                if spec_count(body, ':') == 1 {
                    let k = spec_find(body, ':')->Some_0;
                    let hh = body.subrange(0, k);
                    let mm = body.subrange(k + 1, body.len() as int);
                    if hh.len() > 0 && mm.len() > 0 && all_digits(hh) && all_digits(mm) {
                        let sign: int = if tz[p] == '-' {
                            -1
                        } else {
                            1
                        };
                        Option::Some(sign * (digits_val(hh) * 3600 + digits_val(mm) * 60))
                    } else {
                        Option::None
                    }
                } else {
                    Option::Some(0)
                }
            },
        }
    }
}

/// The Unix second count a timestamp string parses to, or nothing when
/// it is rejected.
pub open spec fn spec_parse_rfc3339(s: Seq<char>) -> Option<int> {
    let t = spec_trim(s);
    if t.len() < 19 {
        Option::None
    } else {
        let ys = t.subrange(0, 4);
        let mos = t.subrange(5, 7);
        let ds = t.subrange(8, 10);
        let hs = t.subrange(11, 13);
        let mis = t.subrange(14, 16);
        let ses = t.subrange(17, 19);
        if !(all_digits(ys) && all_digits(mos) && all_digits(ds) && all_digits(hs) && all_digits(
            mis,
        ) && all_digits(ses)) {
            Option::None
        } else {
            let month = digits_val(mos);
            if month < 1 || month > 12 {
                Option::None
            } else {
                match spec_tz_offset(t) {
                    Option::None => Option::None,
                    Option::Some(off) => Option::Some(
                        days_from_civil_1970(digits_val(ys), month, digits_val(ds)) * 86400
                            + digits_val(hs) * 3600 + digits_val(mis) * 60 + digits_val(ses) - off,
                    ),
                }
            }
        }
    }
}

/// Whether `c` is ASCII whitespace.
fn is_ascii_ws_exec(c: char) -> (r: bool)
    ensures
        r == is_ascii_ws(c),
{
    c == ' ' || c == '\t' || c == '\n' || c == '\r'
}

/// Removes ASCII whitespace from both ends.
#[verifier::loop_isolation(false)]
pub fn trim_ascii_ws(s: &str) -> (r: String)
    ensures
        r@ == spec_trim(s@),
{
    let n = s.unicode_len();
    let mut start: usize = 0;
    proof {
        assert(s@.skip(0) =~= s@);
    }
    while start < n && is_ascii_ws_exec(s.get_char(start))
        invariant
            0 <= start <= n,
            spec_trim_start(s@) == spec_trim_start(s@.skip(start as int)),
        decreases n - start,
    {
        proof {
            assert(s@.skip(start as int)[0] == s@[start as int]);
            assert(s@.skip(start as int).drop_first() =~= s@.skip(start as int + 1));
        }
        start = start + 1;
    }
    proof {
        if start < n {
            assert(s@.skip(start as int)[0] == s@[start as int]);
        }
        assert(spec_trim_start(s@) == s@.skip(start as int));
    }
    let ghost mid = s@.skip(start as int);
    let mut end: usize = n;
    proof {
        assert(mid.take(n - start as int) =~= mid);
    }
    while end > start && is_ascii_ws_exec(s.get_char(end - 1))
        invariant
            start <= end <= n,
            spec_trim_end(mid) == spec_trim_end(mid.take(end - start as int)),
        decreases end,
    {
        proof {
            assert(mid.take(end - start as int).last() == s@[end - 1]);
            assert(mid.take(end - start as int).drop_last() =~= mid.take(end - 1 - start as int));
        }
        end = end - 1;
    }
    proof {
        if end > start {
            assert(mid.take(end - start as int).last() == s@[end - 1]);
        }
        assert(spec_trim_end(mid.take(end - start as int)) == mid.take(end - start as int));
    }
    let r = String::from_str(s.substring_char(start, end));
    proof {
        assert(r@ =~= mid.take(end - start as int));
    }
    r
}

/// Value of the digit group at `from..to`, when every character there is
/// a digit and the group is not empty.
#[verifier::loop_isolation(false)]
fn parse_digits(t: &str, from: usize, to: usize) -> (r: Option<u64>)
    requires
        from <= to <= t@.len(),
        to - from <= 4,
    ensures
        ({
            let sub = t@.subrange(from as int, to as int);
            match r {
                Option::Some(v) => to > from && all_digits(sub) && v == digits_val(sub) && v
                    < 10000,
                Option::None => to == from || !all_digits(sub),
            }
        }),
{
    let ghost sub = t@.subrange(from as int, to as int);
    if to == from {
        return Option::None;
    }
    let mut acc: u64 = 0;
    let mut i: usize = from;
    while i < to
        invariant
            from <= i <= to,
            acc == digits_val(sub.take(i - from as int)),
            acc < pow10(i - from as int),
            all_digits(sub.take(i - from as int)),
        decreases to - i,
    {
        let c = t.get_char(i);
        if !(c >= '0' && c <= '9') {
            proof {
                assert(sub[i - from as int] == t@[i as int]);
                assert(!is_digit(sub[i - from as int]));
            }
            return Option::None;
        }
        let d: u64 = (c as u32 - 48) as u64;
        proof {
            lemma_pow10_mono(i - from as int, 3);
            assert(pow10(3) == 1000) by {
                reveal_with_fuel(pow10, 5);
            }
            assert(sub[i - from as int] == t@[i as int]);
            assert(is_digit(sub[i - from as int]));
            assert(sub.take(i - from as int + 1).drop_last() =~= sub.take(i - from as int));
            assert(sub.take(i - from as int + 1).last() == sub[i - from as int]);
        }
        acc = acc * 10 + d;
        i = i + 1;
        proof {
            assert(all_digits(sub.take(i - from as int)));
        }
    }
    proof {
        assert(sub.take(to - from as int) =~= sub);
        assert(pow10(4) == 10000) by {
            reveal_with_fuel(pow10, 5);
        }
        lemma_pow10_mono(to - from as int, 4);
    }
    Option::Some(acc)
}

/// Last index of `c` within `s@.subrange(from, to)`, mirroring
/// `spec_rfind` on that slice.
#[verifier::loop_isolation(false)]
#[verifier::rlimit(60)]
fn rfind_in(t: &str, from: usize, to: usize, c: char) -> (r: Option<usize>)
    requires
        from <= to <= t@.len(),
    ensures
        ({
            let sub = t@.subrange(from as int, to as int);
            match r {
                Option::Some(p) => from <= p < to && spec_rfind(sub, c) == Option::Some(
                    p - from as int,
                ),
                Option::None => spec_rfind(sub, c) is None,
            }
        }),
{
    let ghost sub = t@.subrange(from as int, to as int);
    let mut j: usize = to;
    proof {
        assert(sub.take(to - from as int) =~= sub);
    }
    while j > from
        invariant
            from <= j <= to,
            spec_rfind(sub, c) == spec_rfind(sub.take(j - from as int), c),
        decreases j,
    {
        proof {
            assert(sub.take(j - from as int).last() == sub[j - 1 - from as int]);
            assert(sub[j - 1 - from as int] == t@[j - 1]);
            assert(sub.take(j - from as int).drop_last() =~= sub.take(j - 1 - from as int));
        }
        if t.get_char(j - 1) == c {
            return Option::Some(j - 1);
        }
        j = j - 1;
    }
    Option::None
}

/// First index of `c` within `s@.subrange(from, to)` and the number of
/// occurrences there, mirroring `spec_find` and `spec_count`.
#[verifier::loop_isolation(false)]
#[verifier::rlimit(60)]
fn find_and_count(t: &str, from: usize, to: usize, c: char) -> (r: (Option<usize>, usize))
    requires
        from <= to <= t@.len(),
    ensures
        ({
            let sub = t@.subrange(from as int, to as int);
            &&& r.1 == spec_count(sub, c)
            &&& match r.0 {
                Option::Some(p) => from <= p < to && spec_find(sub, c) == Option::Some(
                    p - from as int,
                ),
                Option::None => spec_find(sub, c) is None,
            }
        }),
{
    let ghost sub = t@.subrange(from as int, to as int);
    let mut count: usize = 0;
    let mut first: Option<usize> = Option::None;
    let mut i: usize = from;
    while i < to
        invariant
            from <= i <= to,
            count <= i - from,
            count == spec_count(sub.take(i - from as int), c),
            match first {
                Option::Some(p) => from <= p < i && spec_find(sub, c) == Option::Some(
                    p - from as int,
                ),
                Option::None => spec_find(sub.take(i - from as int), c) is None,
            },
        decreases to - i,
    {
        proof {
            assert(sub.take(i - from as int + 1).last() == sub[i - from as int]);
            assert(sub[i - from as int] == t@[i as int]);
            assert(sub.take(i - from as int + 1).drop_last() =~= sub.take(i - from as int));
        }
        let ch = t.get_char(i);
        if ch == c {
            count = count + 1;
            if first.is_none() {
                proof {
                    lemma_find_extend(sub, i - from as int, c);
                }
                first = Option::Some(i);
            }
        } else {
            if first.is_none() {
                proof {
                    lemma_find_no_hit(sub, i - from as int, c);
                }
            }
        }
        i = i + 1;
    }
    proof {
        assert(sub.take(to - from as int) =~= sub);
    }
    (first, count)
}

/// A positive count means some index matches.
proof fn lemma_count_exists(s: Seq<char>, c: char)
    requires
        spec_count(s, c) > 0,
    ensures
        exists|i: int| 0 <= i < s.len() && s[i] == c,
    decreases s.len(),
{
    if s.last() == c {
        assert(s[s.len() - 1] == c);
    } else {
        lemma_count_exists(s.drop_last(), c);
        let i = choose|i: int| 0 <= i < s.drop_last().len() && s.drop_last()[i] == c;
        assert(s[i] == c);
    }
}

/// A failed find means no index matches.
proof fn lemma_find_none(s: Seq<char>, c: char)
    requires
        spec_find(s, c) is None,
    ensures
        forall|i: int| 0 <= i < s.len() ==> s[i] != c,
    decreases s.len(),
{
    if s.len() > 0 {
        lemma_find_none(s.drop_first(), c);
        assert forall|i: int| 0 <= i < s.len() implies s[i] != c by {
            if i > 0 {
                assert(s.drop_first()[i - 1] == s[i]);
            }
        }
    }
}

/// `spec_find` finds exactly the first hit: if nothing matches before
/// index `i` and `s[i]` matches, the answer is `i`.
proof fn lemma_find_extend(s: Seq<char>, i: int, c: char)
    requires
        0 <= i < s.len(),
        spec_find(s.take(i), c) is None,
        s[i] == c,
    ensures
        spec_find(s, c) == Option::Some(i),
    decreases i,
{
    if i == 0 {
    } else {
        assert(s.take(i)[0] == s[0]);
        assert(s.take(i).drop_first() =~= s.drop_first().take(i - 1));
        lemma_find_extend(s.drop_first(), i - 1, c);
    }
}

/// If nothing matches before index `i` and `s[i]` does not match either,
/// nothing matches before `i + 1`.
proof fn lemma_find_no_hit(s: Seq<char>, i: int, c: char)
    requires
        0 <= i < s.len(),
        spec_find(s.take(i), c) is None,
        s[i] != c,
    ensures
        spec_find(s.take(i + 1), c) is None,
    decreases i,
{
    if i == 0 {
        assert(s.take(1)[0] == s[0]);
        assert(s.take(1).drop_first() =~= s.take(0));
    } else {
        assert(s.take(i)[0] == s[0]);
        assert(s.take(i + 1)[0] == s[0]);
        assert(s.take(i).drop_first() =~= s.drop_first().take(i - 1));
        assert(s.take(i + 1).drop_first() =~= s.drop_first().take(i));
        lemma_find_no_hit(s.drop_first(), i - 1, c);
    }
}

/// Zone offset of a trimmed timestamp that does not end in `Z`,
/// mirroring `spec_tz_offset`.
#[verifier::loop_isolation(false)]
#[verifier::rlimit(100)]
fn tz_offset_suffix(t: &str, n: usize) -> (r: Result<i64, ()>)
    requires
        19 <= n,
        n == t@.len(),
        t@.last() != 'Z',
    ensures
        match spec_tz_offset(t@) {
            Option::Some(v) => r matches Ok(o) && o == v && -36596340 <= v <= 36596340,
            Option::None => r is Err,
        },
{
    let ghost tv = t@;
    let ghost tz = tv.subrange(n - 6, n as int);
    let plus = rfind_in(t, n - 6, n, '+');
    let sign_pos: Option<usize> = match plus {
        Option::Some(p) => Option::Some(p),
        Option::None => rfind_in(t, n - 6, n, '-'),
    };
    let p = match sign_pos {
        Option::Some(p) => p,
        Option::None => {
            assert(spec_tz_offset(tv) == Option::Some(0int));
            return Ok(0);
        },
    };
    let ghost prel = p - (n - 6) as int;
    let ghost body = tz.subrange(prel + 1, 6);
    proof {
        assert(body =~= tv.subrange(p + 1, n as int));
    }
    let (first_colon, colon_count) = find_and_count(t, p + 1, n, ':');
    if colon_count != 1 {
        assert(spec_tz_offset(tv) == Option::Some(0int));
        return Ok(0);
    }
    let k = match first_colon {
        Option::Some(k) => k,
        Option::None => {
            proof {
                lemma_count_exists(body, ':');
                lemma_find_none(body, ':');
            }
            return Err(());
        },
    };
    let ghost hhs = body.subrange(0, k - (p + 1) as int);
    let ghost mms = body.subrange(k - p as int, body.len() as int);
    proof {
        assert(hhs =~= tv.subrange(p + 1, k as int));
        assert(mms =~= tv.subrange(k + 1, n as int));
    }
    let hh = match parse_digits(t, p + 1, k) {
        Option::Some(v) => v,
        Option::None => {
            return Err(());
        },
    };
    let mm = match parse_digits(t, k + 1, n) {
        Option::Some(v) => v,
        Option::None => {
            return Err(());
        },
    };
    let magnitude: i64 = (hh as i64) * 3600 + (mm as i64) * 60;
    let ghost x: int = digits_val(hhs) * 3600 + digits_val(mms) * 60;
    proof {
        assert(tz[prel] == tv[p as int]);
        assert(spec_find(body, ':') == Option::Some(k - (p + 1) as int));
        assert(digits_val(hhs) == hh as int);
        assert(digits_val(mms) == mm as int);
        assert(x == magnitude as int);
        assert(0 <= x <= 36596340);
    }
    if t.get_char(p) == '-' {
        proof {
            let sto = spec_tz_offset(tv);
            assert(tz[prel] == '-');
            assert(sto == Option::Some(-1 * x));
            assert(-1 * x == -x) by (nonlinear_arith);
            assert(sto->Some_0 == -magnitude);
        }
        Ok(-magnitude)
    } else {
        proof {
            let sto = spec_tz_offset(tv);
            assert(tz[prel] != '-');
            assert(sto == Option::Some(1 * x));
            assert(1 * x == x) by (nonlinear_arith);
            assert(sto->Some_0 == magnitude);
        }
        Ok(magnitude)
    }
}

/// Day count before a 4-digit year, counting years before 1970 as 1970.
#[verifier::loop_isolation(false)]
fn days_for_year(year: u64) -> (d: i64)
    requires
        year < 10000,
    ensures
        year > 1970 ==> d == days_before_year(year as int),
        year <= 1970 ==> d == 0,
        0 <= d <= 366 * 8030,
{
    let mut days: i64 = 0;
    let mut yi: u64 = 1970;
    while yi < year
        invariant
            1970 <= yi <= 10000,
            year > 1970 ==> yi <= year,
            year <= 1970 ==> yi == 1970,
            yi > 1970 ==> days == days_before_year(yi as int),
            yi == 1970 ==> days == 0,
            0 <= days <= 366 * (yi - 1970),
        decreases year - yi,
    {
        let yl = year_length_exec(yi as i64);
        proof {
            crate::calendar::lemma_days_before_year_succ(yi as int);
        }
        days = days + yl as i64;
        yi = yi + 1;
    }
    days
}

/// Day count before a month of a 4-digit year.
#[verifier::loop_isolation(false)]
fn days_for_months(year: u64, month: u64) -> (d: i64)
    requires
        year < 10000,
        1 <= month <= 12,
    ensures
        d == days_before_month(year as int, month as int),
        0 <= d <= 400,
{
    let mut mdays: i64 = 0;
    let mut mi: u64 = 1;
    while mi < month
        invariant
            1 <= mi <= month,
            mdays == days_before_month(year as int, mi as int),
            0 <= mdays <= 31 * mi,
        decreases month - mi,
    {
        let ml = month_length_exec(year as i64, mi);
        mdays = mdays + ml as i64;
        mi = mi + 1;
    }
    mdays
}

/// Parses an RFC 3339 timestamp into whole Unix seconds.
///
/// After trimming ASCII whitespace, the string must be at least 19
/// characters with digits at the fixed date and time positions and a
/// month in 1..=12; the optional suffix is `Z` or `±hh:mm`. A suffix
/// whose digit groups around the one colon do not parse is rejected;
/// any other tail leaves the offset at zero. Years before 1970 count
/// from 1970.
#[verifier::loop_isolation(false)]
#[verifier::rlimit(100)]
pub fn parse_rfc3339_timestamp(s: &str) -> (r: Result<i64, ()>)
    ensures
        match spec_parse_rfc3339(s@) {
            Option::Some(v) => r matches Ok(t) && t == v,
            Option::None => r is Err,
        },
{
    let trimmed = trim_ascii_ws(s);
    let t = trimmed.as_str();
    let ghost tv = t@;
    let n = t.unicode_len();
    if n < 19 {
        return Err(());
    }
    let year = match parse_digits(t, 0, 4) {
        Option::Some(v) => v,
        Option::None => {
            return Err(());
        },
    };
    let month = match parse_digits(t, 5, 7) {
        Option::Some(v) => v,
        Option::None => {
            return Err(());
        },
    };
    let day = match parse_digits(t, 8, 10) {
        Option::Some(v) => v,
        Option::None => {
            return Err(());
        },
    };
    let hour = match parse_digits(t, 11, 13) {
        Option::Some(v) => v,
        Option::None => {
            return Err(());
        },
    };
    let minute = match parse_digits(t, 14, 16) {
        Option::Some(v) => v,
        Option::None => {
            return Err(());
        },
    };
    let second = match parse_digits(t, 17, 19) {
        Option::Some(v) => v,
        Option::None => {
            return Err(());
        },
    };
    if month < 1 || month > 12 {
        return Err(());
    }

    let off: i64;
    if t.get_char(n - 1) == 'Z' {
        off = 0;
        assert(spec_tz_offset(tv) == Option::Some(0int));
    } else {
        off = match tz_offset_suffix(t, n) {
            Ok(o) => o,
            Err(()) => {
                return Err(());
            },
        };
    }

    let days: i64 = days_for_year(year);
    let mdays: i64 = days_for_months(year, month);
    proof {
        assert(days == (if year > 1970 {
            days_before_year(year as int)
        } else {
            0int
        }));
    }

    let dnum: i64 = days + mdays + day as i64 - 1;
    let total: i64 = dnum * 86400 + (hour as i64) * 3600 + (minute as i64) * 60 + (second as i64)
        - off;
    proof {
        assert(dnum == days_from_civil_1970(year as int, month as int, day as int));
        assert(spec_parse_rfc3339(s@) == Option::Some(total as int));
    }
    Ok(total)
}

} // verus!
