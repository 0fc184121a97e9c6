//! Building the row of a new task, with its schedule checked before it is stored.

use vstd::prelude::*;
use vstd::string::*;
use crate::instant::{naive_utc_seconds, rfc3339_text, parse_naive_utc, to_rfc3339};
use crate::cron_expr::{CronSchedule, cron_accepts};
use crate::task::{Task, ScheduleKind, kind_of};

verus! {

/// Why a new task was refused.
#[derive(Clone, Copy, Debug, PartialEq, Eq, Structural)]
pub enum AdmitError {
    /// The start is not `YYYY-MM-DDTHH:MM:SS` text of a representable instant.
    BadStartTime,
    /// The interval is zero or negative.
    NonPositiveInterval,
    /// The text is not a cron expression.
    BadCronExpr,
}

/// The stored start text of an interval task that starts at `start`
/// (`YYYY-MM-DDTHH:MM:SS`, UTC), where it has one.
pub open spec fn stored_start(start: Seq<char>) -> Option<Seq<char>> {
    match naive_utc_seconds(start) {
        None => None,
        Some(t) => rfc3339_text(t),
    }
}

/// The row of a new interval task: every `interval` minutes from `start`, given as
/// `YYYY-MM-DDTHH:MM:SS` in UTC and stored as RFC 3339 text.
pub fn prepare_interval_task(name: &str, cmd: &str, interval: i64, start: &str) -> (r: Result<
    Task,
    AdmitError,
>)
    ensures
        stored_start(start@) is None ==> r == Err::<Task, AdmitError>(AdmitError::BadStartTime),
        stored_start(start@) is Some && interval < 1 ==> r == Err::<Task, AdmitError>(
            AdmitError::NonPositiveInterval,
        ),
        stored_start(start@) is Some && interval >= 1 ==> r is Ok,
        r matches Ok(task) ==> {
            &&& task.name@ == name@
            &&& task.cmd@ == cmd@
            &&& kind_of(task.schedule_type@) == ScheduleKind::Interval
            &&& task.interval_minutes == Some(interval)
            &&& task.start_time matches Some(s) && stored_start(start@) == Some(s@)
            &&& task.cron_expr is None
        },
{
    let secs = match parse_naive_utc(start) {
        None => return Err(AdmitError::BadStartTime),
        Some(t) => t,
    };
    let text = match to_rfc3339(secs) {
        None => return Err(AdmitError::BadStartTime),
        Some(x) => x,
    };
    if interval < 1 {
        return Err(AdmitError::NonPositiveInterval);
    }
    let schedule_type = String::from_str("interval");
    proof {
        reveal_strlit("interval");
    }
    Ok(
        Task {
            name: String::from_str(name),
            cmd: String::from_str(cmd),
            schedule_type,
            interval_minutes: Some(interval),
            start_time: Some(text),
            cron_expr: None,
        },
    )
}

/// The row of a new cron task; the expression is checked first and stored as given.
pub fn prepare_cron_task(name: &str, cmd: &str, expr: &str) -> (r: Result<Task, AdmitError>)
    ensures
        !cron_accepts(expr@) ==> r == Err::<Task, AdmitError>(AdmitError::BadCronExpr),
        cron_accepts(expr@) ==> r is Ok,
        r matches Ok(task) ==> {
            &&& task.name@ == name@
            &&& task.cmd@ == cmd@
            &&& kind_of(task.schedule_type@) == ScheduleKind::Cron
            &&& task.interval_minutes is None
            &&& task.start_time is None
            &&& task.cron_expr matches Some(e) && e@ == expr@
        },
{
    if CronSchedule::parse(expr).is_none() {
        return Err(AdmitError::BadCronExpr);
    }
    let schedule_type = String::from_str("cron");
    proof {
        reveal_strlit("cron");
        reveal_strlit("interval");
        assert("cron"@.len() != "interval"@.len());
        assert(kind_of(schedule_type@) == ScheduleKind::Cron);
    }
    Ok(
        Task {
            name: String::from_str(name),
            cmd: String::from_str(cmd),
            schedule_type,
            interval_minutes: None,
            start_time: None,
            cron_expr: Some(String::from_str(expr)),
        },
    )
}

} // verus!
