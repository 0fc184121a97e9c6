//! The schedule predicate: whether a task is due at a given second.

use vstd::prelude::*;
use vstd::arithmetic::div_mod::{lemma_fundamental_div_mod, lemma_mod_multiples_basic};
use crate::instant::{valid_instant, utc_text_seconds, parse_utc_text};
use crate::cron_expr::{CronSchedule, cron_accepts, cron_fires_at};
use crate::task::{Task, ScheduleKind, ScheduleError, kind_of, kind_from_text};

verus! {

/// An interval schedule fires at `start` and at every whole multiple of the
/// interval after it, and at no other second.
pub open spec fn interval_fires_at(interval_minutes: int, start: int, now: int) -> bool {
    now >= start && (now - start) % (interval_minutes * 60) == 0
}

/// The `k`-th firing instant of an interval schedule, counting `start` as the zeroth.
pub open spec fn interval_firing(start: int, interval_minutes: int, k: int) -> int {
    start + k * (interval_minutes * 60)
}

/// What evaluating a task's schedule at `now` gives.
pub open spec fn due_result(task: Task, now: int) -> Result<bool, ScheduleError> {
    match kind_of(task.schedule_type@) {
        ScheduleKind::Interval => match task.interval_minutes {
            None => Err(ScheduleError::MissingInterval),
            Some(m) => match task.start_time {
                None => Err(ScheduleError::MissingStartTime),
                Some(s) => match utc_text_seconds(s@) {
                    None => Err(ScheduleError::BadStartTime),
                    Some(start) => if m < 1 {
                        Err(ScheduleError::NonPositiveInterval)
                    } else {
                        Ok(interval_fires_at(m as int, start, now))
                    },
                },
            },
        },
        ScheduleKind::Cron => match task.cron_expr {
            None => Err(ScheduleError::MissingCronExpr),
            Some(e) => if cron_accepts(e@) {
                Ok(cron_fires_at(e@, now))
            } else {
                Err(ScheduleError::BadCronExpr)
            },
        },
        ScheduleKind::Unknown => Ok(false),
    }
}

/// Whether an interval schedule fires at `now`.
pub fn interval_due(interval_minutes: i64, start: i64, now: i64) -> (r: bool)
    requires
        interval_minutes >= 1,
    ensures
        r == interval_fires_at(interval_minutes as int, start as int, now as int),
{
    if now < start {
        return false;
    }
    let diff: u128 = (now as i128 - start as i128) as u128;
    let period: u128 = interval_minutes as u128 * 60;
    diff % period == 0
}

/// Whether the task is due at `now` (whole seconds, UTC); an error where its
/// stored schedule cannot be evaluated. Tasks of an unknown kind are never due.
pub fn should_run(task: &Task, now: i64) -> (r: Result<bool, ScheduleError>)
    requires
        valid_instant(now as int),
    ensures
        r == due_result(*task, now as int),
{
    match kind_from_text(task.schedule_type.as_str()) {
        ScheduleKind::Interval => {
            let m = match task.interval_minutes {
                None => return Err(ScheduleError::MissingInterval),
                Some(m) => m,
            };
            let text = match &task.start_time {
                None => return Err(ScheduleError::MissingStartTime),
                Some(s) => s,
            };
            let start = match parse_utc_text(text.as_str()) {
                None => return Err(ScheduleError::BadStartTime),
                Some(t) => t,
            };
            if m < 1 {
                return Err(ScheduleError::NonPositiveInterval);
            }
            Ok(interval_due(m, start, now))
        },
        ScheduleKind::Cron => {
            let expr = match &task.cron_expr {
                None => return Err(ScheduleError::MissingCronExpr),
                Some(e) => e,
            };
            match CronSchedule::parse(expr.as_str()) {
                None => Err(ScheduleError::BadCronExpr),
                Some(s) => Ok(s.fires_at(now)),
            }
        },
        ScheduleKind::Unknown => Ok(false),
    }
}

/// An interval task with a readable start `start` and interval `m` minutes is due
/// exactly at `start`, `start + m·60`, `start + 2m·60`, ...: at each of these, at no
/// other second, and at no second before `start`.
pub proof fn interval_task_due_exactly_on_multiples(task: Task, m: int, start: int)
    requires
        kind_of(task.schedule_type@) == ScheduleKind::Interval,
        task.interval_minutes matches Some(v) && v as int == m,
        m >= 1,
        task.start_time matches Some(s) && utc_text_seconds(s@) == Some(start),
    ensures
        forall|k: int| k >= 0 ==> #[trigger] due_result(task, interval_firing(start, m, k)) == Ok::<bool, ScheduleError>(true),
        forall|now: int| now < start ==> #[trigger] due_result(task, now) == Ok::<bool, ScheduleError>(false),
        forall|now: int| #[trigger] due_result(task, now) == Ok::<bool, ScheduleError>(true)
            ==> exists|k: int| k >= 0 && now == #[trigger] interval_firing(start, m, k),
{
    let p = m * 60;
    assert forall|k: int| k >= 0 implies #[trigger] due_result(task, interval_firing(start, m, k)) == Ok::<bool, ScheduleError>(true) by {
        lemma_mod_multiples_basic(k, p);
        assert(k * p >= 0) by (nonlinear_arith)
            requires k >= 0, p >= 60;
    }
    assert forall|now: int| #[trigger] due_result(task, now) == Ok::<bool, ScheduleError>(true)
        implies exists|k: int| k >= 0 && now == #[trigger] interval_firing(start, m, k) by {
        let d = now - start;
        lemma_fundamental_div_mod(d, p);
        let k = d / p;
        assert(k >= 0) by (nonlinear_arith)
            requires d >= 0, p > 0, k == d / p;
        assert(now == interval_firing(start, m, k)) by (nonlinear_arith)
            requires d == p * k + d % p, d % p == 0, d == now - start, p == m * 60;
    }
}

/// A cron task whose expression parses is due at `now` exactly when `now` is one of
/// its firing instants.
pub proof fn cron_task_due_iff_firing(task: Task, now: int)
    requires
        kind_of(task.schedule_type@) == ScheduleKind::Cron,
        task.cron_expr matches Some(e) && cron_accepts(e@),
    ensures
        due_result(task, now) == Ok::<bool, ScheduleError>(cron_fires_at(task.cron_expr.unwrap()@, now)),
{
}

/// Evaluating the same task at the same second twice gives the same outcome both times.
pub proof fn evaluation_is_repeatable(
    task: Task,
    now: int,
    first: Result<bool, ScheduleError>,
    second: Result<bool, ScheduleError>,
)
    requires
        first == due_result(task, now),
        second == due_result(task, now),
    ensures
        first == second,
{
}

} // verus!
