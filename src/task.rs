//! A task row as the job store keeps it.

use vstd::prelude::*;
use vstd::string::*;

verus! {

/// A stored task. `schedule_type` is `interval` or `cron`; the interval fields are
/// set for the first, `cron_expr` for the second.
pub struct Task {
    pub name: String,
    pub cmd: String,
    pub schedule_type: String,
    pub interval_minutes: Option<i64>,
    /// RFC 3339 text of the first firing instant.
    pub start_time: Option<String>,
    pub cron_expr: Option<String>,
}

/// The kind of schedule that a `schedule_type` text names.
#[derive(Clone, Copy, Debug, PartialEq, Eq, Structural)]
pub enum ScheduleKind {
    Interval,
    Cron,
    Unknown,
}

pub open spec fn kind_of(text: Seq<char>) -> ScheduleKind {
    if text == "interval"@ {
        ScheduleKind::Interval
    } else if text == "cron"@ {
        ScheduleKind::Cron
    } else {
        ScheduleKind::Unknown
    }
}

/// Reads a `schedule_type` text; anything but `interval` and `cron` is `Unknown`.
pub fn kind_from_text(text: &str) -> (r: ScheduleKind)
    ensures
        r == kind_of(text@),
{
    let t = String::from_str(text);
    if t == String::from_str("interval") {
        ScheduleKind::Interval
    } else if t == String::from_str("cron") {
        ScheduleKind::Cron
    } else {
        ScheduleKind::Unknown
    }
}

/// Why a task's schedule could not be evaluated.
#[derive(Clone, Copy, Debug, PartialEq, Eq, Structural)]
pub enum ScheduleError {
    /// An interval task without `interval_minutes`.
    MissingInterval,
    /// An interval task without `start_time`.
    MissingStartTime,
    /// `start_time` is not a timestamp text.
    BadStartTime,
    /// `interval_minutes` is zero or negative.
    NonPositiveInterval,
    /// A cron task without `cron_expr`.
    MissingCronExpr,
    /// `cron_expr` is not a cron expression.
    BadCronExpr,
}

} // verus!
