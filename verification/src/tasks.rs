//! The task log: a task is a short text with the time at which it was
//! entered. The log lives in a store that only the caller can reach, so
//! each operation here works on the list as the caller read it and hands
//! the new list to `persist`, the caller's way of replacing what the store
//! holds and saving it. A failure of `persist` is handed on as it is.

use vstd::prelude::*;

verus! {

/// One entry of the task log.
#[derive(Clone, Debug, PartialEq, Eq)]
pub struct Task {
    pub name: String,
    /// Seconds since the Unix epoch at which the task was entered.
    pub timestamp: u64,
}

/// The length of a day in seconds.
pub const SECONDS_PER_DAY: u64 = 86400;

/// The last midnight (UTC) at or before `now`, in seconds since the epoch.
pub open spec fn start_of_day(now: u64) -> u64 {
    (now - now % SECONDS_PER_DAY) as u64
}

/// Whether a task entered at `timestamp` belongs to the day of `now`: it
/// was entered at or after that day's midnight.
pub open spec fn is_current(timestamp: u64, now: u64) -> bool {
    timestamp >= start_of_day(now)
}

/// The tasks of `tasks` that belong to the day of `now`, in their order.
pub open spec fn current_tasks(tasks: Seq<Task>, now: u64) -> Seq<Task> {
    tasks.filter(|task: Task| is_current(task.timestamp, now))
}

/// Whether `outcome` is what `persist` gave when it was handed a list that
/// holds exactly `tasks`.
pub open spec fn persisted<P: FnOnce(Vec<Task>) -> Result<(), String>>(
    persist: P,
    tasks: Seq<Task>,
    outcome: Result<(), String>,
) -> bool {
    exists|list: Vec<Task>| list@ == tasks && call_ensures(persist, (list,), outcome)
}

/// Whether `persist` takes every list.
pub open spec fn takes_any_list<P: FnOnce(Vec<Task>) -> Result<(), String>>(persist: P) -> bool {
    forall|list: Vec<Task>| call_requires(persist, (list,))
}

/// Computes the midnight that starts the day of `now`.
pub fn day_start(now: u64) -> (start: u64)
    ensures
        start == start_of_day(now),
        start <= now,
        start % SECONDS_PER_DAY == 0,
        now - start < SECONDS_PER_DAY,
{
    now - now % SECONDS_PER_DAY
}

/// The tasks of `tasks` entered on the day of `now`, in their order.
pub fn keep_current(tasks: Vec<Task>, now: u64) -> (kept: Vec<Task>)
    ensures
        kept@ == current_tasks(tasks@, now),
{
    let today = day_start(now);
    let mut kept: Vec<Task> = Vec::new();
    let ghost all = tasks@;
    let ghost belongs = |task: Task| is_current(task.timestamp, now);
    for task in iter: tasks
        invariant
            today == start_of_day(now),
            iter.seq() == all,
            belongs == (|task: Task| is_current(task.timestamp, now)),
            kept@ == all.take(iter.index() as int).filter(belongs),
    {
        proof {
            let done = all.take(iter.index() as int);
            assert(all.take(iter.index() + 1) =~= done.push(task));
            done.lemma_filter_push(task, belongs);
        }
        if task.timestamp >= today {
            kept.push(task);
        }
    }
    proof {
        assert(all.take(all.len() as int) =~= all);
    }
    kept
}

/// Appends a task named `name`, entered at `timestamp`, to the log that
/// holds `tasks`, and persists the longer log.
pub fn add_task<P: FnOnce(Vec<Task>) -> Result<(), String>>(
    tasks: Vec<Task>,
    name: String,
    timestamp: u64,
    persist: P,
) -> (outcome: Result<(), String>)
    requires
        takes_any_list(persist),
    ensures
        persisted(persist, tasks@.push(Task { name, timestamp }), outcome),
{
    let mut longer = tasks;
    longer.push(Task { name, timestamp });
    persist(longer)
}

/// Replaces the whole log with an empty one and persists that.
pub fn clear_all_tasks<P: FnOnce(Vec<Task>) -> Result<(), String>>(persist: P) -> (outcome: Result<
    (),
    String,
>)
    requires
        takes_any_list(persist),
    ensures
        persisted(persist, Seq::<Task>::empty(), outcome),
{
    let nothing: Vec<Task> = Vec::new();
    persist(nothing)
}

/// Drops from the log that holds `tasks` every task entered before the
/// midnight that starts the day of `now`, and persists the rest in their
/// order.
pub fn cleanup_old_tasks<P: FnOnce(Vec<Task>) -> Result<(), String>>(
    tasks: Vec<Task>,
    now: u64,
    persist: P,
) -> (outcome: Result<(), String>)
    requires
        takes_any_list(persist),
    ensures
        persisted(persist, current_tasks(tasks@, now), outcome),
{
    let kept = keep_current(tasks, now);
    persist(kept)
}

} // verus!
