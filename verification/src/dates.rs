use vstd::prelude::*;

use crate::errors::CliError;

verus! {

/// The number of seconds in one day; schedule windows move in whole days.
pub const SECONDS_PER_DAY: i64 = 86400;

/// Which day's schedule is wanted, relative to today.
/// Selectors are mutually exclusive; `resolve_selector` applies the fixed
/// precedence tomorrow > yesterday > future > past > today.
#[derive(Debug, Clone, Copy, PartialEq, Eq, Structural)]
pub enum DaySelector {
    Today,
    Tomorrow,
    Yesterday,
    FutureDays(i64),
    PastDays(i64),
}

/// The characters that `str::trim` removes: Unicode white space.
pub open spec fn spec_is_space(c: char) -> bool {
    c == '\u{0009}' || c == '\u{000A}' || c == '\u{000B}' || c == '\u{000C}' || c == '\u{000D}'
        || c == '\u{0020}' || c == '\u{0085}' || c == '\u{00A0}' || c == '\u{1680}'
        || c == '\u{2000}' || c == '\u{2001}' || c == '\u{2002}' || c == '\u{2003}'
        || c == '\u{2004}' || c == '\u{2005}' || c == '\u{2006}' || c == '\u{2007}'
        || c == '\u{2008}' || c == '\u{2009}' || c == '\u{200A}' || c == '\u{2028}'
        || c == '\u{2029}' || c == '\u{202F}' || c == '\u{205F}' || c == '\u{3000}'
}

pub open spec fn spec_trim_start(s: Seq<char>) -> Seq<char>
    decreases s.len(),
{
    if s.len() > 0 && spec_is_space(s[0]) {
        spec_trim_start(s.drop_first())
    } else {
        s
    }
}

pub open spec fn spec_trim_end(s: Seq<char>) -> Seq<char>
    decreases s.len(),
{
    if s.len() > 0 && spec_is_space(s.last()) {
        spec_trim_end(s.drop_last())
    } else {
        s
    }
}

/// What `str::trim` leaves: the input without leading and trailing white space.
pub open spec fn spec_trim(s: Seq<char>) -> Seq<char> {
    spec_trim_end(spec_trim_start(s))
}

pub open spec fn spec_is_digit(c: char) -> bool {
    '0' <= c && c <= '9'
}

pub open spec fn spec_digit_val(c: char) -> int {
    c as int - '0' as int
}

pub open spec fn spec_all_digits(s: Seq<char>) -> bool {
    forall|i: int| 0 <= i < s.len() ==> spec_is_digit(#[trigger] s[i])
}

/// The value of a string of decimal digits, most significant first.
pub open spec fn spec_digits_val(s: Seq<char>) -> int
    decreases s.len(),
{
    if s.len() == 0 {
        0
    } else {
        spec_digits_val(s.drop_last()) * 10 + spec_digit_val(s.last())
    }
}

/// The digits of a signed decimal numeral, after an optional sign.
pub open spec fn spec_parse_digits(ds: Seq<char>, neg: bool) -> Option<i64> {
    if ds.len() == 0 || !spec_all_digits(ds) {
        None
    } else {
        let v = if neg {
            -spec_digits_val(ds)
        } else {
            spec_digits_val(ds)
        };
        if i64::MIN <= v <= i64::MAX {
            Some(v as i64)
        } else {
            None
        }
    }
}

/// What `str::parse::<i64>` accepts: an optional `+` or `-` sign, then one
/// or more decimal digits, the value within the signed 64-bit range.
pub open spec fn spec_parse_i64(s: Seq<char>) -> Option<i64> {
    if s.len() == 0 {
        None
    } else if s[0] == '+' {
        spec_parse_digits(s.drop_first(), false)
    } else if s[0] == '-' {
        spec_parse_digits(s.drop_first(), true)
    } else {
        spec_parse_digits(s, false)
    }
}

/// A day-offset argument: trimmed, then read as a signed decimal numeral.
pub open spec fn spec_parse_days(s: Seq<char>) -> Option<i64> {
    spec_parse_i64(spec_trim(s))
}

proof fn lemma_trim_start_skip(s: Seq<char>, k: int)
    requires
        0 <= k <= s.len(),
        forall|i: int| 0 <= i < k ==> spec_is_space(#[trigger] s[i]),
        k == s.len() || !spec_is_space(s[k]),
    ensures
        spec_trim_start(s) == s.skip(k),
    decreases k,
{
    if k == 0 {
        assert(s.skip(0) =~= s);
    } else {
        assert(spec_is_space(s[0]));
        lemma_trim_start_skip(s.drop_first(), k - 1);
        assert(s.drop_first().skip(k - 1) =~= s.skip(k));
    }
}

proof fn lemma_trim_end_take(s: Seq<char>, k: int)
    requires
        0 <= k <= s.len(),
        forall|i: int| k <= i < s.len() ==> spec_is_space(#[trigger] s[i]),
        k == 0 || !spec_is_space(s[k - 1]),
    ensures
        spec_trim_end(s) == s.take(k),
    decreases s.len(),
{
    if s.len() == k {
        if s.len() == 0 {
            assert(s.take(0) =~= s);
        } else {
            assert(!spec_is_space(s.last()));
            assert(s.take(k) =~= s);
        }
    } else {
        assert(spec_is_space(s.last()));
        lemma_trim_end_take(s.drop_last(), k);
        assert(s.drop_last().take(k) =~= s.take(k));
    }
}

proof fn lemma_digits_val_nonneg(s: Seq<char>)
    requires
        spec_all_digits(s),
    ensures
        spec_digits_val(s) >= 0,
    decreases s.len(),
{
    if s.len() > 0 {
        assert(spec_all_digits(s.drop_last())) by {
            assert(forall|i: int| 0 <= i < s.len() - 1 ==> spec_is_digit(#[trigger] s.drop_last()[i]));
        }
        lemma_digits_val_nonneg(s.drop_last());
        assert(spec_is_digit(s.last()));
    }
}

proof fn lemma_digits_val_prefix(s: Seq<char>, k: int)
    requires
        spec_all_digits(s),
        0 <= k <= s.len(),
    ensures
        spec_digits_val(s.take(k)) <= spec_digits_val(s),
    decreases s.len(),
{
    if k == s.len() {
        assert(s.take(k) =~= s);
    } else {
        assert(spec_all_digits(s.drop_last())) by {
            assert(forall|i: int| 0 <= i < s.len() - 1 ==> spec_is_digit(#[trigger] s.drop_last()[i]));
        }
        lemma_digits_val_prefix(s.drop_last(), k);
        assert(s.drop_last().take(k) =~= s.take(k));
        lemma_digits_val_nonneg(s.drop_last());
        assert(spec_is_digit(s.last()));
        assert(spec_digits_val(s) >= spec_digits_val(s.drop_last()));
    }
}

fn is_space(c: char) -> (r: bool)
    ensures
        r == spec_is_space(c),
{
    c == '\u{0009}' || c == '\u{000A}' || c == '\u{000B}' || c == '\u{000C}' || c == '\u{000D}'
        || c == '\u{0020}' || c == '\u{0085}' || c == '\u{00A0}' || c == '\u{1680}'
        || c == '\u{2000}' || c == '\u{2001}' || c == '\u{2002}' || c == '\u{2003}'
        || c == '\u{2004}' || c == '\u{2005}' || c == '\u{2006}' || c == '\u{2007}'
        || c == '\u{2008}' || c == '\u{2009}' || c == '\u{200A}' || c == '\u{2028}'
        || c == '\u{2029}' || c == '\u{202F}' || c == '\u{205F}' || c == '\u{3000}'
}

/// Reads a day-offset argument the way the command line does: white space
/// trimmed, then an optional sign and decimal digits; `None` on anything else
/// or on a value outside the signed 64-bit range.
pub fn parse_days(s: &str) -> (r: Option<i64>)
    ensures
        r == spec_parse_days(s@),
{
    let n: usize = s.unicode_len();
    let mut lo: usize = 0;
    while lo < n && is_space(s.get_char(lo))
        invariant
            n == s@.len(),
            0 <= lo <= n,
            forall|i: int| 0 <= i < lo ==> spec_is_space(#[trigger] s@[i]),
        decreases n - lo,
    {
        lo = lo + 1;
    }
    let mut hi: usize = n;
    while hi > lo && is_space(s.get_char(hi - 1))
        invariant
            n == s@.len(),
            0 <= lo <= hi <= n,
            forall|i: int| 0 <= i < lo ==> spec_is_space(#[trigger] s@[i]),
            forall|i: int| hi <= i < n ==> spec_is_space(#[trigger] s@[i]),
        decreases hi,
    {
        hi = hi - 1;
    }
    proof {
        lemma_trim_start_skip(s@, lo as int);
        let t1 = s@.skip(lo as int);
        lemma_trim_end_take(t1, hi - lo);
        assert(t1.take(hi - lo) =~= s@.subrange(lo as int, hi as int));
    }
    let ghost t = s@.subrange(lo as int, hi as int);
    assert(spec_trim(s@) == t);
    if lo == hi {
        return None;
    }
    let c0 = s.get_char(lo);
    let mut i: usize = lo;
    let mut neg = false;
    if c0 == '+' {
        i = lo + 1;
    } else if c0 == '-' {
        neg = true;
        i = lo + 1;
    }
    let ghost ds = s@.subrange(i as int, hi as int);
    proof {
        if c0 == '+' || c0 == '-' {
            assert(t.drop_first() =~= ds);
        } else {
            assert(t =~= ds);
        }
        assert(spec_parse_i64(t) == spec_parse_digits(ds, neg));
    }
    if i == hi {
        return None;
    }
    let mut acc: u64 = 0;
    let mut j: usize = i;
    while j < hi
        invariant
            n == s@.len(),
            lo <= i <= j <= hi <= n,
            i < hi,
            ds == s@.subrange(i as int, hi as int),
            spec_parse_days(s@) == spec_parse_digits(ds, neg),
            spec_all_digits(s@.subrange(i as int, j as int)),
            acc as int == spec_digits_val(s@.subrange(i as int, j as int)),
        decreases hi - j,
    {
        let c = s.get_char(j);
        let u = c as u32;
        proof {
            assert(s@.subrange(i as int, j as int + 1).drop_last() =~= s@.subrange(
                i as int,
                j as int,
            ));
            assert(s@.subrange(i as int, j as int + 1).last() == s@[j as int]);
        }
        if !(u >= 48 && u <= 57) {
            proof {
                assert(ds[j - i] == s@[j as int]);
                assert(!spec_is_digit(ds[j - i]));
                assert(!spec_all_digits(ds));
            }
            return None;
        }
        let d: u64 = (u - 48) as u64;
        let ghost p = s@.subrange(i as int, j as int + 1);
        proof {
            assert(spec_all_digits(p)) by {
                assert(forall|q: int| 0 <= q < p.len() - 1 ==> p[q] == s@.subrange(
                    i as int,
                    j as int,
                )[q]);
            }
            assert(spec_digits_val(p) == acc as int * 10 + d);
        }
        let step = match acc.checked_mul(10) {
            Some(a) => a.checked_add(d),
            None => None,
        };
        match step {
            Some(b) => {
                acc = b;
            },
            None => {
                proof {
                    assert(spec_digits_val(p) > u64::MAX);
                    if spec_all_digits(ds) {
                        assert(ds.take(j + 1 - i) =~= p);
                        lemma_digits_val_prefix(ds, j + 1 - i);
                        assert(spec_digits_val(ds) > u64::MAX);
                        lemma_digits_val_nonneg(ds);
                        assert(spec_parse_digits(ds, neg) is None);
                    }
                }
                return None;
            },
        }
        j = j + 1;
    }
    proof {
        assert(s@.subrange(i as int, j as int) =~= ds);
        lemma_digits_val_nonneg(ds);
    }
    if neg {
        if acc <= 9223372036854775807u64 {
            Some(-(acc as i64))
        } else if acc == 9223372036854775808u64 {
            Some(i64::MIN)
        } else {
            None
        }
    } else {
        if acc <= 9223372036854775807u64 {
            Some(acc as i64)
        } else {
            None
        }
    }
}

pub open spec fn opt_str_view(o: Option<&str>) -> Option<Seq<char>> {
    match o {
        Some(s) => Some(s@),
        None => None,
    }
}

/// Which selector the command-line flags pick, by the fixed precedence
/// tomorrow > yesterday > future > past > today; a future or past count
/// that is not a well-formed integer is a `DateParse` failure.
pub open spec fn spec_selector(
    tomorrow: bool,
    yesterday: bool,
    future: Option<Seq<char>>,
    past: Option<Seq<char>>,
) -> Result<DaySelector, CliError> {
    if tomorrow {
        Ok(DaySelector::Tomorrow)
    } else if yesterday {
        Ok(DaySelector::Yesterday)
    } else if future is Some {
        match spec_parse_days(future->0) {
            Some(d) => Ok(DaySelector::FutureDays(d)),
            None => Err(CliError::DateParse),
        }
    } else if past is Some {
        match spec_parse_days(past->0) {
            Some(d) => Ok(DaySelector::PastDays(d)),
            None => Err(CliError::DateParse),
        }
    } else {
        Ok(DaySelector::Today)
    }
}

/// Applies the selector precedence to the four day-offset flags.
pub fn resolve_selector(
    tomorrow: bool,
    yesterday: bool,
    future: Option<&str>,
    past: Option<&str>,
) -> (r: Result<DaySelector, CliError>)
    ensures
        r == spec_selector(tomorrow, yesterday, opt_str_view(future), opt_str_view(past)),
{
    if tomorrow {
        Ok(DaySelector::Tomorrow)
    } else if yesterday {
        Ok(DaySelector::Yesterday)
    } else if let Some(f) = future {
        match parse_days(f) {
            Some(d) => Ok(DaySelector::FutureDays(d)),
            None => Err(CliError::DateParse),
        }
    } else if let Some(p) = past {
        match parse_days(p) {
            Some(d) => Ok(DaySelector::PastDays(d)),
            None => Err(CliError::DateParse),
        }
    } else {
        Ok(DaySelector::Today)
    }
}

pub open spec fn i64_fits(x: int) -> bool {
    i64::MIN <= x <= i64::MAX
}

/// The schedule window for a selector: today's day boundaries, each moved by
/// the selected whole number of days.  `None` when the shift leaves the
/// signed 64-bit range at any step — the day product first, then each sum —
/// where unchecked arithmetic would overflow.
pub open spec fn spec_date_range(today_start: i64, today_end: i64, sel: DaySelector) -> Option<
    (i64, i64),
> {
    match sel {
        DaySelector::Today => Some((today_start, today_end)),
        DaySelector::Tomorrow => if i64_fits(today_start + 86400) && i64_fits(today_end + 86400) {
            Some(((today_start + 86400) as i64, (today_end + 86400) as i64))
        } else {
            None
        },
        DaySelector::Yesterday => if i64_fits(today_start - 86400) && i64_fits(today_end - 86400) {
            Some(((today_start - 86400) as i64, (today_end - 86400) as i64))
        } else {
            None
        },
        DaySelector::FutureDays(d) => if i64_fits(d * 86400) && i64_fits(today_start + d * 86400)
            && i64_fits(today_end + d * 86400) {
            Some(((today_start + d * 86400) as i64, (today_end + d * 86400) as i64))
        } else {
            None
        },
        DaySelector::PastDays(d) => if i64_fits(d * 86400) && i64_fits(today_start - d * 86400)
            && i64_fits(today_end - d * 86400) {
            Some(((today_start - d * 86400) as i64, (today_end - d * 86400) as i64))
        } else {
            None
        },
    }
}

/// Moves today's day boundaries to the selected day.
pub fn date_range(today_start: i64, today_end: i64, sel: &DaySelector) -> (r: Option<(i64, i64)>)
    ensures
        r == spec_date_range(today_start, today_end, *sel),
{
    match sel {
        DaySelector::Today => Some((today_start, today_end)),
        DaySelector::Tomorrow => match (
            today_start.checked_add(SECONDS_PER_DAY),
            today_end.checked_add(SECONDS_PER_DAY),
        ) {
            (Some(a), Some(b)) => Some((a, b)),
            _ => None,
        },
        DaySelector::Yesterday => match (
            today_start.checked_sub(SECONDS_PER_DAY),
            today_end.checked_sub(SECONDS_PER_DAY),
        ) {
            (Some(a), Some(b)) => Some((a, b)),
            _ => None,
        },
        DaySelector::FutureDays(d) => match d.checked_mul(SECONDS_PER_DAY) {
            Some(off) => match (today_start.checked_add(off), today_end.checked_add(off)) {
                (Some(a), Some(b)) => Some((a, b)),
                _ => None,
            },
            None => None,
        },
        DaySelector::PastDays(d) => match d.checked_mul(SECONDS_PER_DAY) {
            Some(off) => match (today_start.checked_sub(off), today_end.checked_sub(off)) {
                (Some(a), Some(b)) => Some((a, b)),
                _ => None,
            },
            None => None,
        },
    }
}

/// The tomorrow selector and a future offset of one day pick the same window.
pub proof fn lemma_tomorrow_equals_future_one(today_start: i64, today_end: i64)
    ensures
        spec_date_range(today_start, today_end, DaySelector::Tomorrow) == spec_date_range(
            today_start,
            today_end,
            DaySelector::FutureDays(1),
        ),
{
}

/// The yesterday selector and a past offset of one day pick the same window.
pub proof fn lemma_yesterday_equals_past_one(today_start: i64, today_end: i64)
    ensures
        spec_date_range(today_start, today_end, DaySelector::Yesterday) == spec_date_range(
            today_start,
            today_end,
            DaySelector::PastDays(1),
        ),
{
}

/// Every selector keeps the window one day long and moves its start by a
/// whole number of days from today's start.
pub proof fn lemma_window_shape(today_start: i64, today_end: i64, sel: DaySelector, days: int)
    requires
        today_end == today_start + 86399,
        spec_date_range(today_start, today_end, sel) is Some,
        days == match sel {
            DaySelector::Today => 0int,
            DaySelector::Tomorrow => 1int,
            DaySelector::Yesterday => -1int,
            DaySelector::FutureDays(d) => d as int,
            DaySelector::PastDays(d) => -(d as int),
        },
    ensures
        spec_date_range(today_start, today_end, sel).unwrap().1 == spec_date_range(
            today_start,
            today_end,
            sel,
        ).unwrap().0 + 86399,
        spec_date_range(today_start, today_end, sel).unwrap().0 == today_start + days * 86400,
{
    match sel {
        DaySelector::PastDays(d) => {
            assert(-(d as int) * 86400 == -(d as int * 86400)) by (nonlinear_arith);
        },
        _ => {},
    }
}

} // verus!
