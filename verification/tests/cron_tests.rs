use qrush::cron::parser::{CronError, CronParser};
use qrush::time::{UtcTime, MAX_TIMESTAMP, MIN_TIMESTAMP};

fn at(secs: i64, nanos: u32) -> UtcTime {
    UtcTime { secs, nanos }
}

fn next(expr: &str, from: UtcTime) -> UtcTime {
    CronParser::next_execution(expr, from).unwrap()
}

// Monday 1 January 2024, 00:00 UTC.
const NEW_YEAR: i64 = 1704067200;
// Monday 1 January 2024, 10:30:15 UTC.
const MONDAY_MORNING: i64 = 1704105015;

#[test]
fn accepts_each_documented_pattern() {
    for expr in [
        "0 * * * * *",
        "0 */5 * * * *",
        "0 */10 * * * *",
        "0 */15 * * * *",
        "0 */30 * * * *",
        "0 0 * * * *",
        "0 0 0 * * *",
        "0 0 2 * * *",
        "0 0 9 * * *",
        "0 0 0 * * 1",
        "0 0 0 1 * *",
    ] {
        assert!(CronParser::parse(expr).is_ok(), "{}", expr);
    }
    let s = CronParser::parse("0 */5 * * * *").unwrap();
    assert_eq!(s.seconds.len(), 60);
    assert!(s.seconds[0] && !s.seconds[1]);
    assert!(s.minutes[0] && s.minutes[5] && s.minutes[55] && !s.minutes[6]);
    assert!(s.hours.iter().all(|h| *h));
    assert!(!s.days[0] && s.days[1] && s.days[31]);
    assert!(!s.months[0] && s.months[12]);
    assert!(s.weekdays.iter().all(|w| *w));
}

#[test]
fn reads_lists_ranges_and_steps() {
    let s = CronParser::parse("1,2,10-12 0-59/20 9-17/4 */10 2/5 1-5").unwrap();
    let secs: Vec<usize> = (0..60).filter(|i| s.seconds[*i]).collect();
    assert_eq!(secs, vec![1, 2, 10, 11, 12]);
    let mins: Vec<usize> = (0..60).filter(|i| s.minutes[*i]).collect();
    assert_eq!(mins, vec![0, 20, 40]);
    let hours: Vec<usize> = (0..24).filter(|i| s.hours[*i]).collect();
    assert_eq!(hours, vec![9, 13, 17]);
    let days: Vec<usize> = (0..32).filter(|i| s.days[*i]).collect();
    assert_eq!(days, vec![1, 11, 21, 31]);
    let months: Vec<usize> = (0..13).filter(|i| s.months[*i]).collect();
    assert_eq!(months, vec![2, 7, 12]);
    let weekdays: Vec<usize> = (0..8).filter(|i| s.weekdays[*i]).collect();
    assert_eq!(weekdays, vec![1, 2, 3, 4, 5]);
}

#[test]
fn refuses_expressions_without_six_fields() {
    assert!(matches!(CronParser::parse("* * *"), Err(CronError::InvalidFormat)));
    assert!(matches!(CronParser::parse(""), Err(CronError::InvalidFormat)));
    assert!(matches!(CronParser::parse("0 * * * * * *"), Err(CronError::InvalidFormat)));
    assert_eq!(
        CronError::InvalidFormat.message(),
        "Invalid cron expression format. Expected 6 parts: sec min hour day month weekday"
    );
}

#[test]
fn refuses_malformed_fields_by_name() {
    for expr in [
        "60 * * * * *",
        "* 60 * * * *",
        "* * 24 * * *",
        "* * * 0 * *",
        "* * * 32 * *",
        "* * * * 13 *",
        "* * * * * 8",
        "*/0 * * * * *",
        "5-3 * * * * *",
        "a * * * * *",
        ",1 * * * * *",
        "1- * * * * *",
        "+1 * * * * *",
        "*/99999999999999999999999 * * * * *",
    ] {
        match CronParser::parse(expr) {
            Err(CronError::InvalidField { expression }) => assert_eq!(expression, expr),
            other => panic!("{}: unexpected {:?}", expr, other),
        }
    }
    let msg = CronError::InvalidField { expression: "x".to_string() }.message();
    assert!(msg.starts_with("Cron expression not supported yet: x. Each field"));
}

#[test]
fn interval_schedules_fire_on_their_boundaries() {
    let from = at(MONDAY_MORNING, 250_000_000);
    assert_eq!(next("0 * * * * *", from), at(NEW_YEAR + 10 * 3600 + 31 * 60, 0));
    assert_eq!(next("0 */5 * * * *", from), at(NEW_YEAR + 10 * 3600 + 35 * 60, 0));
    assert_eq!(next("0 */10 * * * *", from), at(NEW_YEAR + 10 * 3600 + 40 * 60, 0));
    assert_eq!(next("0 */15 * * * *", from), at(NEW_YEAR + 10 * 3600 + 45 * 60, 0));
    assert_eq!(next("0 */30 * * * *", from), at(NEW_YEAR + 11 * 3600, 0));
    assert_eq!(next("0 0 * * * *", from), at(NEW_YEAR + 11 * 3600, 0));
    // Two spaces between fields read as one.
    assert_eq!(next("0  * * * * *", from), at(NEW_YEAR + 10 * 3600 + 31 * 60, 0));
}

#[test]
fn daily_at_midnight_is_the_next_midnight() {
    assert_eq!(next("0 0 0 * * *", at(MONDAY_MORNING, 250_000_000)), at(1704153600, 0));
    // Midnight itself is not after midnight.
    assert_eq!(next("0 0 0 * * *", at(NEW_YEAR, 0)), at(1704153600, 0));
    assert_eq!(next("0 0 0 * * *", at(NEW_YEAR - 1, 999_999_999)), at(NEW_YEAR, 0));
}

#[test]
fn daily_at_two_is_the_next_two_oclock() {
    assert_eq!(next("0 0 2 * * *", at(MONDAY_MORNING, 250_000_000)), at(1704160800, 0));
    assert_eq!(next("0 0 2 * * *", at(NEW_YEAR + 3600, 0)), at(NEW_YEAR + 7200, 0));
}

#[test]
fn daily_at_half_past_eight_fires_the_same_morning() {
    assert_eq!(next("0 30 8 * * *", at(NEW_YEAR, 0)), at(NEW_YEAR + 8 * 3600 + 30 * 60, 0));
}

#[test]
fn daily_at_nine_is_the_next_nine_oclock() {
    assert_eq!(next("0 0 9 * * *", at(MONDAY_MORNING, 0)), at(1704186000, 0));
    assert_eq!(next("0 0 9 * * *", at(1704096000, 0)), at(1704099600, 0));
    // At nine o'clock sharp the next run is a day later.
    assert_eq!(next("0 0 9 * * *", at(1704099600, 0)), at(1704186000, 0));
}

#[test]
fn weekly_is_the_next_monday_midnight() {
    assert_eq!(next("0 0 0 * * 1", at(1704283200, 0)), at(1704672000, 0));
    assert_eq!(next("0 0 0 * * 1", at(MONDAY_MORNING, 0)), at(1704672000, 0));
    assert_eq!(next("0 0 0 * * 1", at(NEW_YEAR + 1800, 0)), at(1704672000, 0));
    assert_eq!(next("0 0 0 * * 1", at(NEW_YEAR, 0)), at(1704672000, 0));
    // Sunday is 0 and 7.
    assert_eq!(next("0 0 0 * * 0", at(NEW_YEAR, 0)), at(1704585600, 0));
    assert_eq!(next("0 0 0 * * 7", at(NEW_YEAR, 0)), at(1704585600, 0));
}

#[test]
fn monthly_is_the_first_of_the_next_month() {
    assert_eq!(next("0 0 0 1 * *", at(1705276800, 0)), at(1706745600, 0));
    assert_eq!(next("0 0 0 1 * *", at(1702598400, 0)), at(1704067200, 0));
    assert_eq!(next("0 0 0 1 * *", at(1709251200, 0)), at(1711929600, 0));
}

#[test]
fn seconds_and_lists_pick_the_earliest_match() {
    assert_eq!(next("15,45 30 10 * * *", at(MONDAY_MORNING, 250_000_000)), at(MONDAY_MORNING + 30, 0));
    assert_eq!(next("30 15 10 * * *", at(MONDAY_MORNING, 0)), at(1704153600 + 36930, 0));
    assert_eq!(next("0 0 9-17/4 * * 1-5", at(MONDAY_MORNING, 0)), at(NEW_YEAR + 13 * 3600, 0));
}

#[test]
fn day_and_weekday_must_both_match() {
    // The next Friday the 13th after 1 January 2024 is 13 September 2024.
    assert_eq!(next("0 0 0 13 * 5", at(NEW_YEAR, 0)), at(1726185600, 0));
    // The next 29 February after March 2024 is in 2028.
    assert_eq!(next("0 0 0 29 2 *", at(1709251200, 0)), at(1835395200, 0));
}

#[test]
fn a_date_that_never_comes_is_an_error() {
    match CronParser::next_execution("0 0 0 30 2 *", at(NEW_YEAR, 0)) {
        Err(CronError::NoMatch { expression }) => assert_eq!(expression, "0 0 0 30 2 *"),
        other => panic!("unexpected {:?}", other),
    }
    assert_eq!(
        CronError::NoMatch { expression: "x".to_string() }.message(),
        "Cron expression never fires: x"
    );
}

#[test]
fn next_execution_reports_parse_errors() {
    assert!(matches!(
        CronParser::next_execution("0 0 12 * * x", at(0, 0)),
        Err(CronError::InvalidField { .. })
    ));
    assert!(matches!(CronParser::next_execution("nonsense", at(0, 0)), Err(CronError::InvalidFormat)));
}

#[test]
fn schedules_at_the_ends_of_the_calendar() {
    let early = at(MIN_TIMESTAMP, 0);
    assert_eq!(next("0 * * * * *", early), at(MIN_TIMESTAMP + 60, 0));
    // The calendar's last second is 23:59:59; its last minute starts 59 seconds before.
    assert_eq!(next("0 * * * * *", at(MAX_TIMESTAMP - 60, 999_999_999)), at(MAX_TIMESTAMP - 59, 0));
    assert!(matches!(
        CronParser::next_execution("0 * * * * *", at(MAX_TIMESTAMP - 30, 0)),
        Err(CronError::NoMatch { .. })
    ));
    assert!(matches!(
        CronParser::next_execution("* * * * * *", at(MAX_TIMESTAMP, 0)),
        Err(CronError::NoMatch { .. })
    ));
}
