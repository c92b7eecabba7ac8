//! How a batch of leased tasks is split for execution.
//!
//! Tasks of one activity run one after another, in the order in which the
//! engine returned them; tasks of different activities may run side by
//! side. So a batch is split into one group for each activity.

use vstd::prelude::*;
use crate::error::Error;
use crate::service::model::Task;

verus! {

/// The activities of a batch, each once, in the order of their first task.
pub open spec fn activities(tasks: Seq<Task>) -> Seq<Seq<char>>
    decreases tasks.len(),
{
    if tasks.len() == 0 {
        Seq::empty()
    } else {
        let before = activities(tasks.drop_last());
        if before.contains(tasks.last().activity_id@) {
            before
        } else {
            before.push(tasks.last().activity_id@)
        }
    }
}

/// The tasks of one activity, in the order of the batch.
pub open spec fn tasks_of_activity(tasks: Seq<Task>, activity: Seq<char>) -> Seq<Task>
    decreases tasks.len(),
{
    if tasks.len() == 0 {
        Seq::empty()
    } else {
        let before = tasks_of_activity(tasks.drop_last(), activity);
        if tasks.last().activity_id@ == activity {
            before.push(tasks.last())
        } else {
            before
        }
    }
}

/// No activity occurs twice.
pub open spec fn distinct_activities(list: Seq<Seq<char>>) -> bool {
    forall|i: int, j: int| 0 <= i < j < list.len() ==> list[i] != list[j]
}

/// An activity that is not among the activities of a batch has no task in it.
pub proof fn lemma_absent_activity(tasks: Seq<Task>, activity: Seq<char>)
    requires
        !activities(tasks).contains(activity),
    ensures
        tasks_of_activity(tasks, activity) == Seq::<Task>::empty(),
    decreases tasks.len(),
{
    if tasks.len() > 0 {
        let before = activities(tasks.drop_last());
        if before.contains(tasks.last().activity_id@) {
            assert(tasks.last().activity_id@ != activity);
        } else {
            let last = tasks.last().activity_id@;
            assert(before.push(last)[before.len() as int] == last);
            assert(last != activity);
            assert forall|k: int| 0 <= k < before.len() implies before[k] != activity by {
                assert(before.push(last)[k] == before[k]);
            }
        }
        lemma_absent_activity(tasks.drop_last(), activity);
    }
}

/// The groups of a batch: as many as it has activities, none of them empty,
/// each holding tasks of its own activity only, and every task of the batch
/// in one of them.
pub proof fn lemma_groups_partition(tasks: Seq<Task>)
    ensures
        distinct_activities(activities(tasks)),
        forall|k: int|
            0 <= k < activities(tasks).len() ==> (#[trigger] tasks_of_activity(
                tasks,
                activities(tasks)[k],
            )).len() > 0,
        forall|i: int| 0 <= i < tasks.len() ==> activities(tasks).contains(tasks[i].activity_id@),
        forall|i: int|
            0 <= i < tasks.len() ==> tasks_of_activity(tasks, tasks[i].activity_id@).contains(
                #[trigger] tasks[i],
            ),
        forall|activity: Seq<char>, i: int|
            0 <= i < tasks_of_activity(tasks, activity).len() ==> (#[trigger] tasks_of_activity(
                tasks,
                activity,
            )[i]).activity_id@ == activity,
    decreases tasks.len(),
{
    if tasks.len() > 0 {
        let front = tasks.drop_last();
        let last = tasks.last();
        let before = activities(front);
        lemma_groups_partition(front);
        assert forall|i: int| 0 <= i < tasks.len() implies activities(tasks).contains(
            tasks[i].activity_id@,
        ) by {
            if i < front.len() {
                assert(front[i] == tasks[i]);
                let at = choose|at: int|
                    0 <= at < before.len() && before[at] == front[i].activity_id@;
                assert(activities(tasks)[at] == before[at]);
            } else if before.contains(last.activity_id@) {
            } else {
                assert(activities(tasks)[before.len() as int] == last.activity_id@);
            }
        }
        assert forall|i: int| 0 <= i < tasks.len() implies tasks_of_activity(
            tasks,
            tasks[i].activity_id@,
        ).contains(#[trigger] tasks[i]) by {
            let activity = tasks[i].activity_id@;
            let group_before = tasks_of_activity(front, activity);
            if i < front.len() {
                assert(front[i] == tasks[i]);
                let at = choose|at: int|
                    0 <= at < group_before.len() && group_before[at] == front[i];
                assert(tasks_of_activity(tasks, activity)[at] == tasks[i]);
            } else {
                assert(tasks_of_activity(tasks, activity)[group_before.len() as int] == tasks[i]);
            }
        }
        assert forall|activity: Seq<char>, i: int|
            0 <= i < tasks_of_activity(tasks, activity).len() implies (#[trigger] tasks_of_activity(
            tasks,
            activity,
        )[i]).activity_id@ == activity by {
            let group_before = tasks_of_activity(front, activity);
            if i < group_before.len() {
                assert(tasks_of_activity(tasks, activity)[i] == group_before[i]);
            }
        }
        assert forall|k: int| 0 <= k < activities(tasks).len() implies (
        #[trigger] tasks_of_activity(tasks, activities(tasks)[k])).len() > 0 by {
            if k < before.len() {
                assert(activities(tasks)[k] == before[k]);
                assert(tasks_of_activity(front, before[k]).len() > 0);
            }
        }
    }
}

/// Every task of a group is a task of the batch.
pub proof fn lemma_group_is_drawn_from_batch(tasks: Seq<Task>, activity: Seq<char>, i: int)
    requires
        0 <= i < tasks_of_activity(tasks, activity).len(),
    ensures
        exists|p: int| 0 <= p < tasks.len() && tasks[p] == tasks_of_activity(tasks, activity)[i],
    decreases tasks.len(),
{
    let group_before = tasks_of_activity(tasks.drop_last(), activity);
    if i < group_before.len() {
        lemma_group_is_drawn_from_batch(tasks.drop_last(), activity, i);
        let p = choose|p: int| 0 <= p < tasks.len() - 1 && tasks.drop_last()[p] == group_before[i];
        assert(tasks[p] == tasks_of_activity(tasks, activity)[i]);
    } else {
        assert(tasks[tasks.len() - 1] == tasks_of_activity(tasks, activity)[i]);
    }
}

/// A group keeps the order of the batch: of two tasks of one group, the one
/// that stands first in the group stands first in the batch.
pub proof fn lemma_group_keeps_order(tasks: Seq<Task>, activity: Seq<char>, i: int, j: int)
    requires
        0 <= i < j < tasks_of_activity(tasks, activity).len(),
    ensures
        exists|p: int, q: int|
            0 <= p < q < tasks.len() && tasks[p] == tasks_of_activity(tasks, activity)[i]
                && tasks[q] == tasks_of_activity(tasks, activity)[j],
    decreases tasks.len(),
{
    let front = tasks.drop_last();
    let group = tasks_of_activity(tasks, activity);
    let group_before = tasks_of_activity(front, activity);
    if j < group_before.len() {
        lemma_group_keeps_order(front, activity, i, j);
        let (p, q) = choose|p: int, q: int|
            0 <= p < q < front.len() && front[p] == group_before[i] && front[q] == group_before[j];
        assert(0 <= p < q < tasks.len() && tasks[p] == group[i] && tasks[q] == group[j]);
    } else {
        lemma_group_is_drawn_from_batch(front, activity, i);
        let p = choose|p: int| 0 <= p < front.len() && front[p] == group_before[i];
        let q = tasks.len() - 1;
        assert(0 <= p < q < tasks.len() && tasks[p] == group[i] && tasks[q] == group[j]);
    }
}

/// Splits a batch into one group for each activity. The groups stand in the
/// order in which their activities first occur in the batch, and each holds
/// the tasks of its activity in the order of the batch.
pub fn group_by_activity(tasks: Vec<Task>) -> (groups: Vec<Vec<Task>>)
    ensures
        groups.len() == activities(tasks@).len(),
        forall|k: int|
            0 <= k < groups.len() ==> (#[trigger] groups[k])@ == tasks_of_activity(
                tasks@,
                activities(tasks@)[k],
            ),
{
    let mut groups: Vec<Vec<Task>> = Vec::new();
    let ghost batch = tasks@;
    assert(batch.subrange(0, 0) =~= Seq::empty());
    for task in it: tasks
        invariant
            it.seq() == batch,
            groups.len() == activities(batch.subrange(0, it.index() as int)).len(),
            distinct_activities(activities(batch.subrange(0, it.index() as int))),
            forall|k: int|
                0 <= k < groups.len() ==> (#[trigger] groups[k])@ == tasks_of_activity(
                    batch.subrange(0, it.index() as int),
                    activities(batch.subrange(0, it.index() as int))[k],
                ),
            forall|k: int|
                0 <= k < groups.len() ==> (#[trigger] groups[k]).len() > 0
                    && groups[k][0].activity_id@ == activities(
                    batch.subrange(0, it.index() as int),
                )[k],
    {
        let ghost done = batch.subrange(0, it.index() as int);
        let ghost next = batch.subrange(0, it.index() + 1);
        let ghost known = activities(done);
        let ghost activity = task.activity_id@;
        proof {
            assert(next.drop_last() =~= done);
            assert(next.last() == task);
        }
        let mut at: usize = 0;
        while at < groups.len() && !(groups[at][0].activity_id == task.activity_id)
            invariant
                at <= groups.len(),
                groups.len() == known.len(),
                forall|k: int|
                    0 <= k < groups.len() ==> (#[trigger] groups[k]).len() > 0
                        && groups[k][0].activity_id@ == known[k],
                forall|k: int| 0 <= k < at ==> known[k] != activity,
                activity == task.activity_id@,
            decreases groups.len() - at,
        {
            at += 1;
        }
        if at < groups.len() {
            let mut group = groups.remove(at);
            proof {
                assert(known[at as int] == activity);
                assert(known.contains(activity));
                assert(activities(next) == known);
            }
            group.push(task);
            groups.insert(at, group);
            proof {
                assert forall|k: int| 0 <= k < groups.len() implies (#[trigger] groups[k])@
                    == tasks_of_activity(next, activities(next)[k]) by {
                    if k != at {
                        assert(known[k] != activity);
                    }
                }
            }
        } else {
            proof {
                assert(!known.contains(activity));
                lemma_absent_activity(done, activity);
                assert(activities(next) == known.push(activity));
            }
            let mut group: Vec<Task> = Vec::new();
            group.push(task);
            groups.push(group);
            proof {
                assert(groups[at as int]@ =~= tasks_of_activity(next, activity));
                assert forall|k: int| 0 <= k < groups.len() implies (#[trigger] groups[k])@
                    == tasks_of_activity(next, activities(next)[k]) by {
                    if k < at {
                        assert(known[k] != activity);
                    }
                }
            }
        }
    }
    assert(batch.subrange(0, batch.len() as int) =~= batch);
    groups
}

/// The tasks of a tick: what the lease returned, or none where the lease
/// failed. A failed lease ends the tick, not the polling.
pub fn leased_tasks(outcome: Result<Vec<Task>, Error>) -> (tasks: Vec<Task>)
    ensures
        match outcome {
            Ok(leased) => tasks == leased,
            Err(_) => tasks@ == Seq::<Task>::empty(),
        },
{
    match outcome {
        Ok(leased) => leased,
        Err(_) => Vec::new(),
    }
}

} // verus!
