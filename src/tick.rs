//! One poll tick: which tasks to launch and which to report, judged against one instant.

use vstd::prelude::*;
use crate::instant::valid_instant;
use crate::task::{Task, ScheduleError};
use crate::predicate::{due_result, should_run};

verus! {

/// A task to launch in this tick.
pub struct Launch {
    pub name: String,
    pub cmd: String,
}

impl View for Launch {
    type V = (Seq<char>, Seq<char>);

    open spec fn view(&self) -> (Seq<char>, Seq<char>) {
        (self.name@, self.cmd@)
    }
}

/// A task whose schedule could not be evaluated in this tick.
pub struct Failure {
    pub name: String,
    pub error: ScheduleError,
}

impl View for Failure {
    type V = (Seq<char>, ScheduleError);

    open spec fn view(&self) -> (Seq<char>, ScheduleError) {
        (self.name@, self.error)
    }
}

/// What one tick does: the launches, in store order, and the failures to report.
pub struct TickPlan {
    pub launches: Vec<Launch>,
    pub failures: Vec<Failure>,
}

/// The launch record of a task.
pub open spec fn launch_of(task: Task) -> (Seq<char>, Seq<char>) {
    (task.name@, task.cmd@)
}

/// The launches of a tick: every task due at `now`, in store order.
pub open spec fn planned_launches(tasks: Seq<Task>, now: int) -> Seq<(Seq<char>, Seq<char>)>
    decreases tasks.len(),
{
    if tasks.len() == 0 {
        seq![]
    } else {
        let earlier = planned_launches(tasks.drop_last(), now);
        if due_result(tasks.last(), now) == Ok::<bool, ScheduleError>(true) {
            earlier.push(launch_of(tasks.last()))
        } else {
            earlier
        }
    }
}

/// The failures of a tick: every task whose schedule gives an error at `now`, in store order.
pub open spec fn planned_failures(tasks: Seq<Task>, now: int) -> Seq<(Seq<char>, ScheduleError)>
    decreases tasks.len(),
{
    if tasks.len() == 0 {
        seq![]
    } else {
        let earlier = planned_failures(tasks.drop_last(), now);
        match due_result(tasks.last(), now) {
            Err(e) => earlier.push((tasks.last().name@, e)),
            Ok(_) => earlier,
        }
    }
}

/// Plans one tick at `now`: each task is judged on its own, so a task whose schedule
/// cannot be evaluated is reported and the others go on.
pub fn plan_tick(tasks: &Vec<Task>, now: i64) -> (r: TickPlan)
    requires
        valid_instant(now as int),
    ensures
        r.launches@.map_values(|l: Launch| l@) == planned_launches(tasks@, now as int),
        r.failures@.map_values(|f: Failure| f@) == planned_failures(tasks@, now as int),
{
    let mut launches: Vec<Launch> = Vec::new();
    let mut failures: Vec<Failure> = Vec::new();
    let mut i: usize = 0;
    while i < tasks.len()
        invariant
            valid_instant(now as int),
            i <= tasks@.len(),
            launches@.map_values(|l: Launch| l@) == planned_launches(tasks@.take(i as int), now as int),
            failures@.map_values(|f: Failure| f@) == planned_failures(tasks@.take(i as int), now as int),
        decreases tasks@.len() - i,
    {
        let task = &tasks[i];
        let ghost before = tasks@.take(i as int);
        assert(tasks@.take(i as int + 1).drop_last() =~= before);
        assert(tasks@.take(i as int + 1).last() == *task);
        match should_run(task, now) {
            Ok(true) => {
                launches.push(Launch { name: task.name.clone(), cmd: task.cmd.clone() });
                assert(launches@.map_values(|l: Launch| l@) =~= planned_launches(
                    tasks@.take(i as int + 1),
                    now as int,
                ));
            },
            Ok(false) => {},
            Err(e) => {
                failures.push(Failure { name: task.name.clone(), error: e });
                assert(failures@.map_values(|f: Failure| f@) =~= planned_failures(
                    tasks@.take(i as int + 1),
                    now as int,
                ));
            },
        }
        i = i + 1;
    }
    assert(tasks@.take(tasks@.len() as int) =~= tasks@);
    TickPlan { launches, failures }
}

/// The launches planned for the first `n` tasks begin the launches planned for all of them.
proof fn lemma_prefix_launches(tasks: Seq<Task>, now: int, n: int)
    requires
        0 <= n <= tasks.len(),
    ensures
        planned_launches(tasks.take(n), now).len() <= planned_launches(tasks, now).len(),
        forall|k: int|
            0 <= k < planned_launches(tasks.take(n), now).len() ==> #[trigger] planned_launches(
                tasks.take(n),
                now,
            )[k] == planned_launches(tasks, now)[k],
    decreases tasks.len() - n,
{
    if n == tasks.len() {
        assert(tasks.take(n) =~= tasks);
    } else {
        lemma_prefix_launches(tasks, now, n + 1);
        assert(tasks.take(n + 1).drop_last() =~= tasks.take(n));
        let short = planned_launches(tasks.take(n), now);
        let long = planned_launches(tasks.take(n + 1), now);
        assert forall|k: int| 0 <= k < short.len() implies #[trigger] short[k] == long[k] by {}
        assert forall|k: int| 0 <= k < short.len() implies #[trigger] short[k] == planned_launches(tasks, now)[k] by {
            assert(long[k] == planned_launches(tasks, now)[k]);
        }
    }
}

/// The position among the launches of a tick that task `j` takes when it is due.
pub open spec fn launch_position(tasks: Seq<Task>, now: int, j: int) -> int {
    planned_launches(tasks.take(j), now).len() as int
}

/// A due task gets its own launch, at its position, whatever the other tasks of the
/// tick hold, malformed schedules included.
proof fn lemma_due_task_position(tasks: Seq<Task>, now: int, j: int)
    requires
        0 <= j < tasks.len(),
        due_result(tasks[j], now) == Ok::<bool, ScheduleError>(true),
    ensures
        0 <= launch_position(tasks, now, j) < planned_launches(tasks, now).len(),
        planned_launches(tasks, now)[launch_position(tasks, now, j)] == launch_of(tasks[j]),
        launch_position(tasks, now, j) < planned_launches(tasks.take(j + 1), now).len(),
{
    assert(tasks.take(j + 1).drop_last() =~= tasks.take(j));
    assert(tasks.take(j + 1).last() == tasks[j]);
    lemma_prefix_launches(tasks, now, j + 1);
    let k = launch_position(tasks, now, j);
    assert(planned_launches(tasks.take(j + 1), now)[k] == launch_of(tasks[j]));
}

/// A task due at `now` is launched in the tick at `now`, whatever the other tasks of
/// the tick hold, malformed schedules included.
pub proof fn due_task_is_launched(tasks: Seq<Task>, now: int, j: int)
    requires
        0 <= j < tasks.len(),
        due_result(tasks[j], now) == Ok::<bool, ScheduleError>(true),
    ensures
        planned_launches(tasks, now).contains(launch_of(tasks[j])),
{
    lemma_due_task_position(tasks, now, j);
}

/// Two tasks due in the same tick each get a launch record of their own, in store order.
pub proof fn due_tasks_each_launched(tasks: Seq<Task>, now: int, i: int, j: int)
    requires
        0 <= i < j < tasks.len(),
        due_result(tasks[i], now) == Ok::<bool, ScheduleError>(true),
        due_result(tasks[j], now) == Ok::<bool, ScheduleError>(true),
    ensures
        exists|a: int, b: int|
            0 <= a < b < planned_launches(tasks, now).len()
                && #[trigger] planned_launches(tasks, now)[a] == launch_of(tasks[i])
                && #[trigger] planned_launches(tasks, now)[b] == launch_of(tasks[j]),
{
    lemma_due_task_position(tasks, now, i);
    lemma_due_task_position(tasks, now, j);
    let sub = tasks.take(j);
    assert(sub.take(i + 1) =~= tasks.take(i + 1));
    lemma_prefix_launches(sub, now, i + 1);
    let a = launch_position(tasks, now, i);
    let b = launch_position(tasks, now, j);
    assert(planned_launches(tasks, now)[a] == launch_of(tasks[i]));
    assert(planned_launches(tasks, now)[b] == launch_of(tasks[j]));
}

} // verus!
