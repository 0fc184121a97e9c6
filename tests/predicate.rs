use cron_poller::instant::{MAX_INSTANT, MIN_INSTANT};
use cron_poller::admission::{prepare_cron_task, prepare_interval_task, AdmitError};
use cron_poller::cron_expr::{is_firing, CronSchedule};
use cron_poller::predicate::{interval_due, should_run};
use cron_poller::task::{kind_from_text, ScheduleError, ScheduleKind, Task};

/// 2025-05-20T10:00:00Z
const T0: i64 = 1747735200;
/// 2025-06-01T00:00:00Z
const JUNE_1: i64 = 1748736000;
/// 2025-06-02T00:00:00Z
const JUNE_2: i64 = 1748822400;

fn interval_task(minutes: Option<i64>, start: Option<&str>) -> Task {
    Task {
        name: "python_every5Min".to_string(),
        cmd: "python3 /path/to/script --arg1".to_string(),
        schedule_type: "interval".to_string(),
        interval_minutes: minutes,
        start_time: start.map(|s| s.to_string()),
        cron_expr: None,
    }
}

fn cron_task(expr: Option<&str>) -> Task {
    Task {
        name: "job".to_string(),
        cmd: "echo job".to_string(),
        schedule_type: "cron".to_string(),
        interval_minutes: None,
        start_time: None,
        cron_expr: expr.map(|s| s.to_string()),
    }
}

#[test]
fn interval_scenario_five_minutes() {
    let task = prepare_interval_task("python_every5Min", "python3 /path/to/script --arg1", 5, "2025-05-20T10:00:00")
        .unwrap();
    assert_eq!(should_run(&task, T0 + 300), Ok(true));
    assert_eq!(should_run(&task, T0 + 301), Ok(false));
    assert_eq!(should_run(&task, T0 + 299), Ok(false));
}

#[test]
fn interval_fires_on_multiples_only() {
    let task = interval_task(Some(5), Some("2025-05-20T10:00:00+00:00"));
    assert_eq!(should_run(&task, T0), Ok(true));
    assert_eq!(should_run(&task, T0 + 600), Ok(true));
    assert_eq!(should_run(&task, T0 + 3000), Ok(true));
    assert_eq!(should_run(&task, T0 + 60), Ok(false));
    assert_eq!(should_run(&task, T0 + 1), Ok(false));
    assert_eq!(should_run(&task, T0 - 300), Ok(false));
    assert_eq!(should_run(&task, T0 - 1), Ok(false));
}

#[test]
fn interval_due_formula() {
    assert!(interval_due(1, 100, 100));
    assert!(interval_due(1, 100, 220));
    assert!(!interval_due(1, 100, 221));
    assert!(!interval_due(1, 100, 40));
    assert!(interval_due(2, -120, 120));
    assert!(!interval_due(2, -120, 60));
}

#[test]
fn cron_every_seven_seconds_from_one() {
    let task = cron_task(Some("1/7 * * * * *"));
    for s in [1, 8, 15, 22] {
        assert_eq!(should_run(&task, T0 + s), Ok(true), "second {}", s);
    }
    assert_eq!(should_run(&task, T0 + 2), Ok(false));
    assert_eq!(should_run(&task, T0), Ok(false));
}

#[test]
fn cron_monthly_at_midnight() {
    let task = cron_task(Some("0 0 0 1 * *"));
    assert_eq!(should_run(&task, JUNE_1), Ok(true));
    assert_eq!(should_run(&task, JUNE_2), Ok(false));
}

#[test]
fn cron_lists_and_ranges() {
    let task = cron_task(Some("5,15,45 * * * * *"));
    assert_eq!(should_run(&task, T0 + 15), Ok(true));
    assert_eq!(should_run(&task, T0 + 16), Ok(false));
    let mid = cron_task(Some("0 0 * 15-20 * *"));
    assert_eq!(should_run(&mid, T0 + 3600), Ok(true));
    assert_eq!(should_run(&mid, T0 + 3601), Ok(false));
}

#[test]
fn evaluation_twice_gives_the_same() {
    let a = cron_task(Some("1/7 * * * * *"));
    let b = interval_task(Some(5), Some("2025-05-20T10:00:00+00:00"));
    for now in [T0, T0 + 1, T0 + 8, T0 + 300] {
        assert_eq!(should_run(&a, now), should_run(&a, now));
        assert_eq!(should_run(&b, now), should_run(&b, now));
    }
}

#[test]
fn unknown_kind_is_never_due() {
    let mut task = interval_task(Some(5), Some("2025-05-20T10:00:00+00:00"));
    task.schedule_type = "weekly".to_string();
    assert_eq!(should_run(&task, T0), Ok(false));
    assert_eq!(kind_from_text("interval"), ScheduleKind::Interval);
    assert_eq!(kind_from_text("cron"), ScheduleKind::Cron);
    assert_eq!(kind_from_text("Cron"), ScheduleKind::Unknown);
}

#[test]
fn schedule_errors() {
    assert_eq!(should_run(&interval_task(None, Some("2025-05-20T10:00:00+00:00")), T0), Err(ScheduleError::MissingInterval));
    assert_eq!(should_run(&interval_task(Some(5), None), T0), Err(ScheduleError::MissingStartTime));
    assert_eq!(should_run(&interval_task(Some(5), Some("yesterday")), T0), Err(ScheduleError::BadStartTime));
    assert_eq!(should_run(&interval_task(Some(0), Some("2025-05-20T10:00:00+00:00")), T0), Err(ScheduleError::NonPositiveInterval));
    assert_eq!(should_run(&cron_task(None), T0), Err(ScheduleError::MissingCronExpr));
    assert_eq!(should_run(&cron_task(Some("not a cron")), T0), Err(ScheduleError::BadCronExpr));
}

#[test]
fn cron_schedule_next_after() {
    let s = CronSchedule::parse("1/7 * * * * *").unwrap();
    assert_eq!(s.source(), "1/7 * * * * *");
    assert_eq!(s.next_after(T0), Some(T0 + 1));
    assert_eq!(s.next_after(T0 + 1), Some(T0 + 8));
    assert!(s.fires_at(T0 + 22));
    assert!(!s.fires_at(T0 + 23));
    assert!(CronSchedule::parse("* * *").is_none());
    assert!(is_firing(Some(7), 7));
    assert!(!is_firing(Some(8), 7));
    assert!(!is_firing(None, 7));
}

#[test]
fn admit_interval_task() {
    let task = prepare_interval_task("a", "echo a", 5, "2025-05-20T10:00:00").unwrap();
    assert_eq!(task.name, "a");
    assert_eq!(task.cmd, "echo a");
    assert_eq!(task.schedule_type, "interval");
    assert_eq!(task.interval_minutes, Some(5));
    assert_eq!(task.start_time.as_deref(), Some("2025-05-20T10:00:00+00:00"));
    assert_eq!(task.cron_expr, None);
    assert_eq!(should_run(&task, T0), Ok(true));
    assert!(matches!(prepare_interval_task("a", "echo a", 5, "2025-05-20 10:00"), Err(AdmitError::BadStartTime)));
    assert!(matches!(prepare_interval_task("a", "echo a", 0, "2025-05-20T10:00:00"), Err(AdmitError::NonPositiveInterval)));
}

#[test]
fn admit_cron_task() {
    let task = prepare_cron_task("monthly", "echo monthly", "0 0 0 1 * *").unwrap();
    assert_eq!(task.schedule_type, "cron");
    assert_eq!(task.cron_expr.as_deref(), Some("0 0 0 1 * *"));
    assert_eq!(task.interval_minutes, None);
    assert_eq!(task.start_time, None);
    assert_eq!(should_run(&task, JUNE_1), Ok(true));
    assert!(matches!(prepare_cron_task("bad", "echo", "61 * * * * *"), Err(AdmitError::BadCronExpr)));
}

#[test]
fn extreme_instants() {
    let every_second = cron_task(Some("* * * * * *"));
    // cron schedules cover the years 1970 to 2100 only
    assert_eq!(should_run(&every_second, MAX_INSTANT), Ok(false));
    assert_eq!(should_run(&every_second, MIN_INSTANT), Ok(false));
    assert_eq!(should_run(&every_second, 0), Ok(true));
    let from_epoch = interval_task(Some(1), Some("1970-01-01T00:00:00+00:00"));
    assert_eq!(should_run(&from_epoch, MIN_INSTANT), Ok(false));
    assert_eq!(should_run(&from_epoch, MAX_INSTANT - 59), Ok(true));
    assert_eq!(should_run(&from_epoch, MAX_INSTANT), Ok(false));
}
