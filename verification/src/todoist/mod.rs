//! The task service: what is sent to it and what it returns.

use crate::text::concat_str;
use crate::todoist::http::models::Task;
use vstd::prelude::*;

pub mod http;

verus! {

/// A task to create. Only `content` is needed; the service fills in the rest.
#[derive(Debug, Clone)]
pub struct NewTask {
    pub content: String,
    pub description: Option<String>,
    pub project_id: Option<String>,
    pub section_id: Option<String>,
    pub parent_id: Option<String>,
    pub order: Option<u32>,
    pub labels: Option<Vec<String>>,
    pub priority: Option<u8>,
    pub assignee_id: Option<String>,
    pub due_string: Option<String>,
    pub due_date: Option<String>,
    pub due_datetime: Option<String>,
    pub due_lang: Option<String>,
    pub duration: Option<u32>,
    pub duration_unit: Option<String>,
    pub deadline_date: Option<String>,
}

impl Default for NewTask {
    fn default() -> (r: NewTask)
        ensures
            r.content@ == Seq::<char>::empty(),
            r.description is None,
            r.project_id is None,
            r.section_id is None,
            r.parent_id is None,
            r.order is None,
            r.labels is None,
            r.priority is None,
            r.assignee_id is None,
            r.due_string is None,
            r.due_date is None,
            r.due_datetime is None,
            r.due_lang is None,
            r.duration is None,
            r.duration_unit is None,
            r.deadline_date is None,
    {
        NewTask {
            content: String::new(),
            description: None,
            project_id: None,
            section_id: None,
            parent_id: None,
            order: None,
            labels: None,
            priority: None,
            assignee_id: None,
            due_string: None,
            due_date: None,
            due_datetime: None,
            due_lang: None,
            duration: None,
            duration_unit: None,
            deadline_date: None,
        }
    }
}

/// Where to move a task: to a project, a section of it, or under a parent.
#[derive(Debug, Clone, PartialEq, Eq)]
pub struct MoveTask {
    pub task_id: String,
    pub project_id: Option<String>,
    pub section_id: Option<String>,
    pub parent_id: Option<String>,
}

/// The abstract value of a [`MoveTask`].
pub struct MoveTaskView {
    pub task_id: Seq<char>,
    pub project_id: Option<Seq<char>>,
    pub section_id: Option<Seq<char>>,
    pub parent_id: Option<Seq<char>>,
}

impl DeepView for MoveTask {
    type V = MoveTaskView;

    open spec fn deep_view(&self) -> MoveTaskView {
        MoveTaskView {
            task_id: self.task_id@,
            project_id: self.project_id.deep_view(),
            section_id: self.section_id.deep_view(),
            parent_id: self.parent_id.deep_view(),
        }
    }
}

/// The endpoint that lists the sections of a project.
pub fn sections_endpoint(project_id: &str) -> (r: String)
    ensures
        r@ == "/sections?project_id="@ + project_id@,
{
    concat_str("/sections?project_id=", project_id)
}

/// A task with the day and the time of day at which it is due, both read in
/// the time zone of the user: the day as a day number, the time in
/// nanoseconds after midnight. A task without a due date that can be read has
/// no day.
pub struct DatedTask {
    pub task: Task,
    pub due_day: Option<i64>,
    pub due_time: u64,
}

/// The tasks of `tasks` that are due on the day `today`, in order.
pub open spec fn due_on(tasks: Seq<DatedTask>, today: i64) -> Seq<DatedTask>
    decreases tasks.len(),
{
    if tasks.len() == 0 {
        Seq::empty()
    } else if tasks.last().due_day == Some(today) {
        due_on(tasks.drop_last(), today).push(tasks.last())
    } else {
        due_on(tasks.drop_last(), today)
    }
}

/// `sorted` with `task` put behind the last task that is due no later.
pub open spec fn placed(sorted: Seq<DatedTask>, task: DatedTask) -> Seq<DatedTask>
    decreases sorted.len(),
{
    if sorted.len() == 0 {
        seq![task]
    } else if sorted.last().due_time <= task.due_time {
        sorted.push(task)
    } else {
        placed(sorted.drop_last(), task).push(sorted.last())
    }
}

/// The tasks of `tasks` in the order of their due times; tasks that are due at
/// the same time keep their order.
pub open spec fn by_due_time(tasks: Seq<DatedTask>) -> Seq<DatedTask>
    decreases tasks.len(),
{
    if tasks.len() == 0 {
        Seq::empty()
    } else {
        placed(by_due_time(tasks.drop_last()), tasks.last())
    }
}

/// No task of the list is due before a task in front of it.
pub open spec fn in_due_order(tasks: Seq<DatedTask>) -> bool {
    forall|i: int, j: int|
        0 <= i <= j < tasks.len() ==> (#[trigger] tasks[i]).due_time <= (#[trigger] tasks[j]).due_time
}

/// Placing a task keeps the due order, and adds that task and no other.
pub proof fn lemma_placed(sorted: Seq<DatedTask>, task: DatedTask)
    requires
        in_due_order(sorted),
    ensures
        in_due_order(placed(sorted, task)),
        placed(sorted, task).to_multiset() == sorted.to_multiset().insert(task),
        placed(sorted, task).len() == sorted.len() + 1,
    decreases sorted.len(),
{
    broadcast use vstd::seq_lib::group_to_multiset_ensures;

    if sorted.len() == 0 {
        assert(sorted =~= Seq::empty());
    } else if sorted.last().due_time <= task.due_time {
        let out = sorted.push(task);
        assert forall|i: int, j: int| 0 <= i <= j < out.len() implies (#[trigger] out[i]).due_time <= (
        #[trigger] out[j]).due_time by {
            if j == sorted.len() && i < sorted.len() {
                assert(sorted[i].due_time <= sorted[sorted.len() - 1].due_time);
            }
        }
    } else {
        let init = sorted.drop_last();
        assert forall|i: int, j: int| 0 <= i <= j < init.len() implies (#[trigger] init[i]).due_time <= (
        #[trigger] init[j]).due_time by {
            assert(init[i] == sorted[i] && init[j] == sorted[j]);
        }
        lemma_placed(init, task);
        let inner = placed(init, task);
        let out = inner.push(sorted.last());
        assert(sorted == init.push(sorted.last()));
        assert forall|i: int, j: int| 0 <= i <= j < out.len() implies (#[trigger] out[i]).due_time <= (
        #[trigger] out[j]).due_time by {
            if j == inner.len() && i < inner.len() {
                assert(inner.to_multiset().count(inner[i]) > 0);
                if inner[i] != task {
                    assert(init.to_multiset().count(inner[i]) > 0);
                    let k = choose|k: int| 0 <= k < init.len() && init[k] == inner[i];
                    assert(sorted[k].due_time <= sorted[sorted.len() - 1].due_time);
                }
            }
        }
    }
}

/// The tasks in the order of their due times are in due order, and are the
/// same tasks.
pub proof fn lemma_by_due_time(tasks: Seq<DatedTask>)
    ensures
        in_due_order(by_due_time(tasks)),
        by_due_time(tasks).to_multiset() == tasks.to_multiset(),
        by_due_time(tasks).len() == tasks.len(),
    decreases tasks.len(),
{
    broadcast use vstd::seq_lib::group_to_multiset_ensures;

    if tasks.len() == 0 {
        assert(tasks =~= Seq::empty());
    } else {
        lemma_by_due_time(tasks.drop_last());
        lemma_placed(by_due_time(tasks.drop_last()), tasks.last());
        assert(tasks == tasks.drop_last().push(tasks.last()));
    }
}

/// Puts `task` behind the last task of `sorted` that is due no later.
fn place(sorted: &mut Vec<DatedTask>, task: DatedTask)
    ensures
        final(sorted)@ == placed(old(sorted)@, task),
{
    let mut at: usize = sorted.len();
    let ghost all = sorted@;
    proof {
        assert(all.take(all.len() as int) == all);
        assert(all.skip(all.len() as int) =~= Seq::<DatedTask>::empty());
        assert(placed(all, task) + Seq::<DatedTask>::empty() =~= placed(all, task));
    }
    while at > 0 && sorted[at - 1].due_time > task.due_time
        invariant
            at <= sorted.len(),
            sorted@ == all,
            placed(all, task) == placed(all.take(at as int), task) + all.skip(at as int),
        decreases at,
    {
        proof {
            let front = all.take(at as int);
            assert(front.drop_last() == all.take(at - 1));
            assert(placed(front, task) == placed(all.take(at - 1), task).push(front.last()));
            assert(placed(all.take(at - 1), task).push(front.last()) + all.skip(at as int) =~= placed(
                all.take(at - 1),
                task,
            ) + all.skip(at - 1));
        }
        at -= 1;
    }
    proof {
        let front = all.take(at as int);
        if at > 0 {
            assert(front.last() == all[at - 1]);
        }
        assert(all.take(0) =~= Seq::<DatedTask>::empty());
        assert(placed(front, task) =~= front.push(task));
    }
    sorted.insert(at, task);
    assert(sorted@ =~= all.take(at as int).push(task) + all.skip(at as int));
}

/// Picks the tasks that are due on the day `today`, and puts them in the order
/// of their due times; tasks that are due at the same time keep their order.
pub fn tasks_due_today(tasks: Vec<DatedTask>, today: i64) -> (r: Vec<DatedTask>)
    ensures
        r@ == by_due_time(due_on(tasks@, today)),
        in_due_order(r@),
        r@.to_multiset() == due_on(tasks@, today).to_multiset(),
{
    proof {
        lemma_by_due_time(due_on(tasks@, today));
    }
    let mut tasks = tasks;
    let ghost all = tasks@;
    let mut picked: Vec<DatedTask> = Vec::new();
    let mut rest: Vec<DatedTask> = Vec::new();
    // Take the tasks from the back, so that each leaves its vector at no cost.
    while tasks.len() > 0
        invariant
            tasks.len() <= all.len(),
            tasks@ == all.take(tasks.len() as int),
            due_on(all, today) == due_on(tasks@, today) + rest@.reverse(),
        decreases tasks.len(),
    {
        let ghost before = tasks@;
        let task = tasks.pop().unwrap();
        proof {
            assert(tasks@ == before.drop_last());
            assert(tasks@ =~= all.take(tasks.len() as int));
        }
        if task.due_day == Some(today) {
            let ghost kept = rest@;
            rest.push(task);
            proof {
                assert(rest@.reverse() =~= seq![task] + kept.reverse());
                assert(due_on(before, today) == due_on(before.drop_last(), today).push(task));
                assert(due_on(before.drop_last(), today).push(task) + kept.reverse() =~= due_on(
                    before.drop_last(),
                    today,
                ) + (seq![task] + kept.reverse()));
            }
        }
    }
    proof {
        assert(due_on(all, today) =~= rest@.reverse());
        assert(rest@.reverse().take(0) =~= Seq::<DatedTask>::empty());
    }
    let ghost due = rest@.reverse();
    while rest.len() > 0
        invariant
            rest@.len() <= due.len(),
            rest@.reverse() == due.skip(due.len() - rest@.len()),
            picked@ == by_due_time(due.take(due.len() - rest@.len())),
        decreases rest.len(),
    {
        let ghost before = rest@;
        let task = rest.pop().unwrap();
        proof {
            let done = due.len() - before.len();
            assert(rest@ == before.drop_last());
            assert(before.reverse()[0] == task);
            assert(due[done] == task);
            assert(due.take(done + 1).drop_last() =~= due.take(done));
            assert(due.take(done + 1).last() == task);
            let now = rest@.reverse();
            let was = before.reverse();
            assert(now.len() == was.len() - 1);
            assert forall|k: int| 0 <= k < now.len() implies now[k] == due.skip(done + 1)[k] by {
                assert(now[k] == was[k + 1]);
                assert(was[k + 1] == due.skip(done)[k + 1]);
            }
            assert(now =~= due.skip(done + 1));
        }
        place(&mut picked, task);
    }
    proof {
        assert(due.take(due.len() as int) =~= due);
    }
    picked
}

} // verus!
