use zermelo_cli::dates::{date_range, parse_days, resolve_selector, DaySelector, SECONDS_PER_DAY};
use zermelo_cli::errors::CliError;

const MIDNIGHT: i64 = 1_700_000_000;
const DAY_END: i64 = MIDNIGHT + 86399;

#[test]
fn parse_days_plain() {
    assert_eq!(parse_days("5"), Some(5));
}

#[test]
fn parse_days_trims_whitespace() {
    assert_eq!(parse_days("  42\n"), Some(42));
}

#[test]
fn parse_days_signs() {
    assert_eq!(parse_days("-3"), Some(-3));
    assert_eq!(parse_days("+7"), Some(7));
}

#[test]
fn parse_days_rejects_text() {
    assert_eq!(parse_days("soon"), None);
    assert_eq!(parse_days("1x"), None);
    assert_eq!(parse_days("1 2"), None);
}

#[test]
fn parse_days_rejects_empty() {
    assert_eq!(parse_days(""), None);
    assert_eq!(parse_days("   "), None);
    assert_eq!(parse_days("-"), None);
}

#[test]
fn parse_days_extremes() {
    assert_eq!(parse_days("9223372036854775807"), Some(i64::MAX));
    assert_eq!(parse_days("-9223372036854775808"), Some(i64::MIN));
    assert_eq!(parse_days("9223372036854775808"), None);
    assert_eq!(parse_days("-9223372036854775809"), None);
}

#[test]
fn selector_tomorrow_wins() {
    let r = resolve_selector(true, true, Some("4"), Some("bad"));
    assert_eq!(r, Ok(DaySelector::Tomorrow));
}

#[test]
fn selector_yesterday_beats_future() {
    let r = resolve_selector(false, true, Some("4"), None);
    assert_eq!(r, Ok(DaySelector::Yesterday));
}

#[test]
fn selector_future_beats_past() {
    let r = resolve_selector(false, false, Some("4"), Some("2"));
    assert_eq!(r, Ok(DaySelector::FutureDays(4)));
}

#[test]
fn selector_past() {
    let r = resolve_selector(false, false, None, Some("2"));
    assert_eq!(r, Ok(DaySelector::PastDays(2)));
}

#[test]
fn selector_defaults_to_today() {
    let r = resolve_selector(false, false, None, None);
    assert_eq!(r, Ok(DaySelector::Today));
}

#[test]
fn selector_bad_future_is_date_parse_error() {
    let r = resolve_selector(false, false, Some("soon"), None);
    assert_eq!(r, Err(CliError::DateParse));
}

#[test]
fn selector_bad_past_is_date_parse_error() {
    let r = resolve_selector(false, false, None, Some("3.5"));
    assert_eq!(r, Err(CliError::DateParse));
}

#[test]
fn range_today_unshifted() {
    assert_eq!(date_range(MIDNIGHT, DAY_END, &DaySelector::Today), Some((MIDNIGHT, DAY_END)));
}

#[test]
fn range_tomorrow_shifts_one_day() {
    assert_eq!(
        date_range(MIDNIGHT, DAY_END, &DaySelector::Tomorrow),
        Some((MIDNIGHT + SECONDS_PER_DAY, DAY_END + SECONDS_PER_DAY))
    );
}

#[test]
fn range_yesterday_shifts_back_one_day() {
    assert_eq!(
        date_range(MIDNIGHT, DAY_END, &DaySelector::Yesterday),
        Some((MIDNIGHT - SECONDS_PER_DAY, DAY_END - SECONDS_PER_DAY))
    );
}

#[test]
fn range_future_n_shifts_n_days() {
    assert_eq!(
        date_range(MIDNIGHT, DAY_END, &DaySelector::FutureDays(10)),
        Some((MIDNIGHT + 10 * SECONDS_PER_DAY, DAY_END + 10 * SECONDS_PER_DAY))
    );
}

#[test]
fn range_past_n_shifts_back_n_days() {
    assert_eq!(
        date_range(MIDNIGHT, DAY_END, &DaySelector::PastDays(10)),
        Some((MIDNIGHT - 10 * SECONDS_PER_DAY, DAY_END - 10 * SECONDS_PER_DAY))
    );
}

#[test]
fn tomorrow_equals_future_one() {
    assert_eq!(
        date_range(MIDNIGHT, DAY_END, &DaySelector::Tomorrow),
        date_range(MIDNIGHT, DAY_END, &DaySelector::FutureDays(1))
    );
}

#[test]
fn yesterday_equals_past_one() {
    assert_eq!(
        date_range(MIDNIGHT, DAY_END, &DaySelector::Yesterday),
        date_range(MIDNIGHT, DAY_END, &DaySelector::PastDays(1))
    );
}

#[test]
fn negative_future_moves_back() {
    assert_eq!(
        date_range(MIDNIGHT, DAY_END, &DaySelector::FutureDays(-1)),
        date_range(MIDNIGHT, DAY_END, &DaySelector::Yesterday)
    );
}

#[test]
fn range_overflow_is_none() {
    assert_eq!(date_range(MIDNIGHT, DAY_END, &DaySelector::FutureDays(i64::MAX)), None);
    assert_eq!(date_range(i64::MAX, i64::MAX, &DaySelector::Tomorrow), None);
    assert_eq!(date_range(i64::MIN, i64::MIN + 86399, &DaySelector::PastDays(1)), None);
}
