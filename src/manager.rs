//! The ready queue and its stride-scheduling selection.
use std::collections::VecDeque;
use vstd::prelude::*;

use crate::config::BIG_STRIDE;
use crate::task::Task;
use crate::Kernel;

verus! {

/// Pass `v` advanced by `d`, wrapping past `u64::MAX`.
pub open spec fn advance(v: u64, d: u64) -> u64 {
    if v + d > u64::MAX {
        (v + d - u64::MAX - 1) as u64
    } else {
        (v + d) as u64
    }
}

/// What one scheduling turn costs a task of priority `p`.
pub open spec fn stride(p: u64) -> u64
    recommends
        p >= 1,
{
    (BIG_STRIDE / p) as u64
}

/// `t` after being charged one scheduling turn.
pub open spec fn charged(t: Task) -> Task {
    Task { pass: advance(t.pass, stride(t.priority)), ..t }
}

/// Position of the task that `fetch` selects: the earliest among those
/// whose pass is least.
pub open spec fn first_min_index(q: Seq<Task>) -> int
    decreases q.len(),
{
    if q.len() <= 1 {
        0
    } else {
        let p = first_min_index(q.drop_last());
        if q[p].pass > q.last().pass {
            q.len() - 1
        } else {
            p
        }
    }
}

/// `i` is a position of least pass in `q`, and no earlier position has it.
pub open spec fn is_first_min(q: Seq<Task>, i: int) -> bool {
    &&& 0 <= i < q.len()
    &&& forall|j: int| 0 <= j < q.len() ==> q[i].pass <= #[trigger] q[j].pass
    &&& forall|j: int| 0 <= j < i ==> q[i].pass < #[trigger] q[j].pass
}

/// The selected position holds a least pass, and every earlier position a
/// strictly greater one.
pub proof fn lemma_first_min_index(q: Seq<Task>)
    requires
        q.len() > 0,
    ensures
        is_first_min(q, first_min_index(q)),
    decreases q.len(),
{
    if q.len() > 1 {
        let d = q.drop_last();
        lemma_first_min_index(d);
        assert forall|j: int| 0 <= j < d.len() implies d[j] == q[j] by {}
    }
}

/// A task that `fetch` returns never has a pass greater than that of any task
/// left in the queue.
pub proof fn lemma_fetch_takes_least_pass(q: Seq<Task>)
    requires
        q.len() > 0,
    ensures
        forall|j: int|
            0 <= j < q.remove(first_min_index(q)).len() ==> q[first_min_index(q)].pass
                <= #[trigger] q.remove(first_min_index(q))[j].pass,
{
    lemma_first_min_index(q);
    let i = first_min_index(q);
    assert forall|j: int| 0 <= j < q.remove(i).len() implies q[i].pass <= #[trigger] q.remove(
        i,
    )[j].pass by {
        if j < i {
            assert(q.remove(i)[j] == q[j]);
        } else {
            assert(q.remove(i)[j] == q[j + 1]);
        }
    }
}

/// Charging a task adds `BIG_STRIDE / priority` to its pass, where the sum
/// does not pass `u64::MAX`, and changes nothing else.
pub proof fn lemma_charge_adds_stride(t: Task)
    requires
        t.wf(),
        t.pass + BIG_STRIDE / t.priority <= u64::MAX,
    ensures
        charged(t).pass == t.pass + BIG_STRIDE / t.priority,
        charged(t) == (Task { pass: charged(t).pass, ..t }),
{
    assert(BIG_STRIDE / t.priority <= BIG_STRIDE) by (nonlinear_arith)
        requires
            t.priority >= 1,
    ;
}

/// Among tasks of equal pass, the one queued earlier is selected first.
pub proof fn lemma_tie_goes_to_earliest(q: Seq<Task>, i: int, j: int)
    requires
        0 <= i < j < q.len(),
        q[i].pass == q[j].pass,
    ensures
        first_min_index(q) != j,
{
    lemma_first_min_index(q);
}

/// With a single task queued, `fetch` selects it and empties the queue.
pub proof fn lemma_single_task(t: Task)
    ensures
        first_min_index(seq![t]) == 0,
        seq![t].remove(0) =~= Seq::<Task>::empty(),
{
}

/// The ready queue of the stride scheduler.
pub struct TaskManager {
    ready_queue: VecDeque<Task>,
}

impl View for TaskManager {
    type V = Seq<Task>;

    /// The queued tasks, earliest inserted first.
    closed spec fn view(&self) -> Seq<Task> {
        self.ready_queue@
    }
}

impl TaskManager {
    /// Every queued task may be scheduled.
    pub open spec fn wf(&self) -> bool {
        forall|i: int| 0 <= i < self@.len() ==> (#[trigger] self@[i]).wf()
    }

    /// An empty ready queue.
    pub fn new() -> (r: TaskManager)
        ensures
            r@ == Seq::<Task>::empty(),
            r.wf(),
    {
        TaskManager { ready_queue: VecDeque::new() }
    }

    /// Appends `task` to the back of the ready queue.
    pub fn add(&mut self, task: Task)
        requires
            old(self).wf(),
            task.wf(),
        ensures
            final(self)@ == old(self)@.push(task),
            final(self).wf(),
    {
        self.ready_queue.push_back(task);
        assert forall|i: int| 0 <= i < self@.len() implies (#[trigger] self@[i]).wf() by {
            if i < old(self)@.len() {
                assert(self@[i] == old(self)@[i]);
            }
        }
    }

    /// Removes the earliest-queued task of least pass and charges it one
    /// turn; `None` when the queue is empty.
    pub fn fetch(&mut self) -> (r: Option<Task>)
        requires
            old(self).wf(),
        ensures
            final(self).wf(),
            r is None <==> old(self)@.len() == 0,
            r is None ==> final(self)@ == old(self)@,
            r matches Some(t) ==> {
                let i = first_min_index(old(self)@);
                &&& final(self)@ == old(self)@.remove(i)
                &&& t == charged(old(self)@[i])
                &&& t.wf()
            },
    {
        if self.ready_queue.len() == 0 {
            return None;
        }
        let ghost q = self.ready_queue@;
        let mut task_pos: usize = 0;
        let mut idx: usize = 1;
        while idx < self.ready_queue.len()
            invariant
                self.ready_queue@ == q,
                1 <= idx <= q.len(),
                task_pos == first_min_index(q.subrange(0, idx as int)),
                task_pos < idx,
            decreases q.len() - idx,
        {
            proof {
                let s = q.subrange(0, idx as int);
                lemma_first_min_index(s);
                assert(q.subrange(0, idx + 1).drop_last() =~= s);
            }
            if self.ready_queue[task_pos].pass > self.ready_queue[idx].pass {
                task_pos = idx;
            }
            idx = idx + 1;
        }
        proof {
            assert(q.subrange(0, q.len() as int) =~= q);
        }
        match self.ready_queue.remove(task_pos) {
            Some(mut task) => {
                task.pass = task.pass.wrapping_add(BIG_STRIDE / task.priority);
                proof {
                    assert forall|i: int| 0 <= i < self@.len() implies (#[trigger] self@[i]).wf() by {
                        if i < task_pos {
                            assert(self@[i] == q[i]);
                        } else {
                            assert(self@[i] == q[i + 1]);
                        }
                    }
                }
                Some(task)
            },
            None => None,
        }
    }
}

/// Queues `task` in the kernel's scheduler.
pub fn add_task(kernel: &mut Kernel, task: Task)
    requires
        old(kernel).wf(),
        task.wf(),
    ensures
        final(kernel).wf(),
        final(kernel).manager@ == old(kernel).manager@.push(task),
        final(kernel).processor == old(kernel).processor,
{
    kernel.manager.add(task);
}

/// Takes the next task to run from the kernel's scheduler.
pub fn fetch_task(kernel: &mut Kernel) -> (r: Option<Task>)
    requires
        old(kernel).wf(),
    ensures
        final(kernel).wf(),
        final(kernel).processor == old(kernel).processor,
        r is None <==> old(kernel).manager@.len() == 0,
        r is None ==> final(kernel).manager@ == old(kernel).manager@,
        r matches Some(t) ==> {
            let i = first_min_index(old(kernel).manager@);
            &&& final(kernel).manager@ == old(kernel).manager@.remove(i)
            &&& t == charged(old(kernel).manager@[i])
            &&& t.wf()
        },
{
    kernel.manager.fetch()
}

} // verus!
