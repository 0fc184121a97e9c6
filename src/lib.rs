//! A polling task scheduler: schedule predicates, the per-tick dispatch plan,
//! and the validation of new task rows.

pub mod instant;
pub mod cron_expr;
pub mod task;
pub mod predicate;
pub mod tick;
pub mod dispatch;
pub mod admission;
