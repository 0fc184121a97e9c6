//! Six-field (optionally seven, with years) cron expressions, evaluated by the `cron` crate.

use vstd::prelude::*;
use crate::instant::{valid_instant, MAX_INSTANT};

verus! {

#[verifier::external_type_specification]
#[verifier::external_body]
pub struct ExSchedule(cron::Schedule);

/// Whether the `cron` crate accepts the text as a schedule.
pub uninterp spec fn cron_accepts(expr: Seq<char>) -> bool;

/// The first firing instant strictly after `after`, for the schedule parsed from `expr`.
pub uninterp spec fn cron_next_after(expr: Seq<char>, after: int) -> Option<int>;

/// A cron schedule together with the text it was parsed from.
/// The fields are private: `parse` is the only way to build one, so `parsed`
/// is always what the `cron` crate made of `source`.
pub struct CronSchedule {
    source: String,
    parsed: cron::Schedule,
}

impl View for CronSchedule {
    type V = Seq<char>;

    /// The expression text.
    closed spec fn view(&self) -> Seq<char> {
        self.source@
    }
}

/// Relies on `<cron::Schedule as FromStr>::from_str`: whether it succeeds depends on the text alone.
#[verifier::external_body]
fn parse_schedule(expr: &str) -> (r: Option<cron::Schedule>)
    ensures
        r is Some <==> cron_accepts(expr@),
{
    <cron::Schedule as std::str::FromStr>::from_str(expr).ok()
}

/// Relies on `cron::Schedule::after` and the first `next` of the iterator it returns:
/// the first matching instant strictly after the reference. The reference is turned into
/// a chrono UTC instant first; `after` adds one second to it, which cannot overflow here.
#[verifier::external_body]
fn schedule_next_after(s: &CronSchedule, after: i64) -> (r: Option<i64>)
    requires
        after < MAX_INSTANT,
    ensures
        r matches Some(t) ==> cron_next_after(s@, after as int) == Some(t as int),
        r is None ==> cron_next_after(s@, after as int) is None,
{
    chrono::DateTime::from_timestamp(after, 0)
        .and_then(|d| s.parsed.after(&d).next())
        .map(|d| d.timestamp())
}

impl CronSchedule {
    /// Parses a cron expression; `None` where the `cron` crate rejects it.
    pub fn parse(expr: &str) -> (r: Option<CronSchedule>)
        ensures
            r is Some <==> cron_accepts(expr@),
            r matches Some(s) ==> s@ == expr@,
    {
        match parse_schedule(expr) {
            Some(parsed) => Some(CronSchedule { source: expr.to_owned(), parsed }),
            None => None,
        }
    }

    /// The expression text the schedule was parsed from.
    pub fn source(&self) -> (r: &str)
        ensures
            r@ == self@,
    {
        self.source.as_str()
    }

    /// The first firing instant strictly after `after`.
    pub fn next_after(&self, after: i64) -> (r: Option<i64>)
        requires
            after < MAX_INSTANT,
        ensures
            r matches Some(t) ==> cron_next_after(self@, after as int) == Some(t as int),
            r is None ==> cron_next_after(self@, after as int) is None,
    {
        schedule_next_after(self, after)
    }
}

/// Whether `now` is a firing instant, given the first firing instant strictly
/// after the second before it.
pub fn is_firing(next_after_prev: Option<i64>, now: i64) -> (r: bool)
    ensures
        r == (next_after_prev == Some(now)),
{
    match next_after_prev {
        Some(t) => t == now,
        None => false,
    }
}

/// Whether the schedule fires at `now`: the first firing instant strictly after
/// the second before `now` is `now` itself.
pub open spec fn cron_fires_at(expr: Seq<char>, now: int) -> bool {
    cron_next_after(expr, now - 1) == Some(now)
}

impl CronSchedule {
    /// Whether the schedule fires at `now` (whole seconds).
    pub fn fires_at(&self, now: i64) -> (r: bool)
        requires
            valid_instant(now as int),
        ensures
            r == cron_fires_at(self@, now as int),
    {
        let next = self.next_after(now - 1);
        is_firing(next, now)
    }
}

} // verus!
