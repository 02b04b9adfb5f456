use qrush::cron::parser::CronParser;
use qrush::queue::enqueue;
use qrush::ops::RedisOp;
use qrush::runner::finish_job;
use qrush::time::{day_number_of, day_start_of, hour_of, weekday_of, UtcTime, MAX_TIMESTAMP, MIN_TIMESTAMP};

#[test]
fn builds_instants_inside_the_calendar() {
    assert_eq!(UtcTime::from_parts(0, 0), Some(UtcTime { secs: 0, nanos: 0 }));
    assert_eq!(UtcTime::from_parts(0, 1_000_000_000), None);
    assert_eq!(UtcTime::from_parts(MAX_TIMESTAMP + 1, 0), None);
    assert_eq!(UtcTime::from_parts(MIN_TIMESTAMP - 1, 0), None);
    assert!(UtcTime::from_parts(MIN_TIMESTAMP, 999_999_999).is_some());
    assert_eq!(UtcTime { secs: 17, nanos: 3 }.timestamp(), 17);
}

#[test]
fn calendar_range_matches_chrono() {
    assert_eq!(chrono::DateTime::<chrono::Utc>::MIN_UTC.timestamp(), MIN_TIMESTAMP);
    assert_eq!(chrono::DateTime::<chrono::Utc>::MAX_UTC.timestamp(), MAX_TIMESTAMP);
}

#[test]
fn splits_days_and_hours_euclidean() {
    assert_eq!(day_number_of(0), 0);
    assert_eq!(day_number_of(-1), -1);
    assert_eq!(day_number_of(86399), 0);
    assert_eq!(day_number_of(-86400), -1);
    assert_eq!(day_number_of(-86401), -2);
    assert_eq!(day_start_of(1704105015), 1704067200);
    assert_eq!(day_start_of(-1), -86400);
    assert_eq!(hour_of(1704105015), 10);
    assert_eq!(hour_of(-1), 23);
}

#[test]
fn weekdays_count_from_monday() {
    // 1 January 1970 was a Thursday, 1 January 2024 a Monday.
    assert_eq!(weekday_of(0), 3);
    assert_eq!(weekday_of(4 * 86400), 0);
    assert_eq!(weekday_of(-1), 2);
    assert_eq!(weekday_of(1704105015), 0);
    assert_eq!(weekday_of(1704283200), 2);
}

#[test]
fn reads_the_calendar_through_chrono() {
    // The first of the next month, across a leap February and a year's end.
    let next = |secs: i64| CronParser::next_execution("0 0 0 1 * *", UtcTime { secs, nanos: 0 }).unwrap().secs;
    assert_eq!(next(1709251199), 1709251200);
    assert_eq!(next(1706745600 + 86400 * 28), 1709251200);
    assert_eq!(next(1702598400), 1704067200);
    assert_eq!(next(0), 2678400);
}

fn created_at(ops: &[RedisOp]) -> String {
    match &ops[0] {
        RedisOp::HashSet { fields, .. } => fields.iter().find(|(f, _)| f == "created_at").unwrap().1.clone(),
        other => panic!("unexpected {:?}", other),
    }
}

#[test]
fn formats_instants_through_chrono() {
    assert_eq!(created_at(&enqueue("j", "q", "p", UtcTime { secs: 0, nanos: 0 })), "1970-01-01T00:00:00+00:00");
    assert_eq!(
        created_at(&enqueue("j", "q", "p", UtcTime { secs: 1704105015, nanos: 250_000_000 })),
        "2024-01-01T10:30:15.250+00:00"
    );
    match &finish_job("q", "j", true, UtcTime { secs: 0, nanos: 0 })[2] {
        RedisOp::PushFront { value, .. } => assert_eq!(value, "[1970-01-01 00:00:00 UTC] ✅ Job j succeeded"),
        other => panic!("unexpected {:?}", other),
    }
}
