use vstd::prelude::*;
use std::collections::BTreeMap;
use crossbeam::queue::ArrayQueue;
use super::{Computation, Context, Task, TaskId, TaskPoll};
use super::queue::{
    id_queue_capacity, id_queue_len, id_queue_new, id_queue_pop, id_queue_push, queue_bound,
    queued_ids,
};

verus! {


/// How many task identifiers the ready queue holds.
pub const TASK_QUEUE_CAPACITY: usize = 128;

/// How many spawned tasks may wait in the new-task inbox.
pub const NEW_TASK_CAPACITY: usize = 128;

/// How many polls one drain pass makes at most, so that a task that keeps
/// waking itself cannot hold the executor forever.
pub const POLL_BUDGET: usize = 4096;

/// The continuation bound to one task: invoking it schedules that task.
#[derive(Clone, Copy, Debug)]
pub struct TaskWaker {
    task_id: u64,
}

impl TaskWaker {
    pub closed spec fn spec_task_id(&self) -> u64 {
        self.task_id
    }

    pub fn new(task_id: u64) -> (r: TaskWaker)
        ensures
            r.spec_task_id() == task_id,
    {
        TaskWaker { task_id }
    }

    /// A fresh context whose continuation is this waker.
    pub fn context(&self) -> (r: Context)
        ensures
            r.spec_task() == self.spec_task_id(),
            r.spec_wakes() == Seq::<u64>::empty(),
    {
        Context::new(self.task_id)
    }
}

/// Scheduler state: ready queue, task table, continuation cache and the
/// inbox of newly spawned tasks.
pub struct Executor<C> {
    task_queue: ArrayQueue<u64>,
    tasks: BTreeMap<u64, Task<C>>,
    waker_cache: BTreeMap<u64, TaskWaker>,
    // A `Vec` kept within `NEW_TASK_CAPACITY`: what a queue of an outside
    // crate holds can be described here only for plain values, not for
    // tasks of a generic computation.
    new_tasks: Vec<Task<C>>,
    spawned: Ghost<Set<u64>>,
    completed: Ghost<Set<u64>>,
    log: Ghost<Seq<(u64, Option<TaskPoll>)>>,
    pushed: Ghost<Seq<u64>>,
    resumes: Ghost<Seq<Option<(C, C, Seq<u64>)>>>,
}

/// Some entry of `log` from `from` up to `to` is a poll of task `id`.
pub open spec fn polled_between(log: Seq<(u64, Option<TaskPoll>)>, from: int, to: int, id: u64) -> bool {
    exists|j: int| from <= j < to && (#[trigger] log[j]).0 == id && log[j].1 is Some
}

/// One resume as the executor made it: the computation before, the one it
/// left, and the continuations it invoked.
pub type Resume<C> = (C, C, Seq<u64>);

/// The computation of task `id` just before entry `i` of a pass's log that
/// began at entry `from`: the one left by the task's latest resume in the
/// pass, or else the one it had when the pass began (`base`).
pub open spec fn computation_at<C>(
    base: Map<u64, C>,
    log: Seq<(u64, Option<TaskPoll>)>,
    resumes: Seq<Option<Resume<C>>>,
    from: int,
    i: int,
    id: u64,
) -> C
    decreases i - from,
{
    if i <= from {
        base[id]
    } else if log[i - 1].0 == id && resumes[i - 1] is Some {
        resumes[i - 1]->Some_0.1
    } else {
        computation_at(base, log, resumes, from, i - 1, id)
    }
}

proof fn lemma_computation_at_prefix<C>(
    base: Map<u64, C>,
    log1: Seq<(u64, Option<TaskPoll>)>,
    res1: Seq<Option<Resume<C>>>,
    log2: Seq<(u64, Option<TaskPoll>)>,
    res2: Seq<Option<Resume<C>>>,
    from: int,
    i: int,
    id: u64,
)
    requires
        0 <= from,
        i <= log1.len(),
        i <= log2.len(),
        i <= res1.len(),
        i <= res2.len(),
        forall|j: int| 0 <= j < i ==> log1[j] == log2[j] && res1[j] == res2[j],
    ensures
        computation_at(base, log1, res1, from, i, id) == computation_at(base, log2, res2, from, i, id),
    decreases i - from,
{
    if i > from {
        lemma_computation_at_prefix(base, log1, res1, log2, res2, from, i - 1, id);
    }
}

/// The task identifiers of the entries of `h`, in order.
pub open spec fn ids_of(h: Seq<(u64, Option<TaskPoll>)>) -> Seq<u64> {
    Seq::new(h.len(), |i: int| h[i].0)
}

impl<C: Computation> Executor<C> {
    /// Identifiers waiting to be polled, front first.
    pub closed spec fn ready(&self) -> Seq<u64> {
        queued_ids(self.task_queue)
    }

    /// The task table.
    pub closed spec fn table(&self) -> Map<u64, Task<C>> {
        self.tasks@
    }

    /// Tasks spawned but not yet taken into the table, oldest first.
    pub closed spec fn inbox(&self) -> Seq<Task<C>> {
        self.new_tasks@
    }

    /// The identifiers of the tasks ever taken into the table.
    pub closed spec fn spawned(&self) -> Set<u64> {
        self.spawned@
    }

    /// Every identifier taken off the ready queue so far, in order, with the
    /// outcome of polling its task, or `None` when it was not in the table.
    /// For each entry of `poll_log()`, the resume the poll made, if any.
    pub closed spec fn resumes(&self) -> Seq<Option<Resume<C>>> {
        self.resumes@
    }

    /// The computation of each task in the table or the inbox.
    pub open spec fn computations(&self) -> Map<u64, C> {
        Map::new(
            |k: u64|
                self.table().contains_key(k) || exists|i: int|
                    0 <= i < self.inbox().len() && self.inbox()[i].spec_id() == k,
            |k: u64|
                if self.table().contains_key(k) {
                    self.table()[k].spec_computation()
                } else {
                    self.inbox()[choose|i: int|
                        0 <= i < self.inbox().len() && self.inbox()[i].spec_id() == k].spec_computation()
                },
        )
    }

    pub closed spec fn poll_log(&self) -> Seq<(u64, Option<TaskPoll>)> {
        self.log@
    }

    /// Every identifier ever placed on the ready queue, in order.
    pub closed spec fn pushed(&self) -> Seq<u64> {
        self.pushed@
    }

    /// The continuation cache.
    pub closed spec fn wakers(&self) -> Map<u64, TaskWaker> {
        self.waker_cache@
    }

    /// Some poll of task `id` returned `Ready`.
    pub open spec fn finished(&self, id: u64) -> bool {
        exists|i: int| 0 <= i < self.poll_log().len() && #[trigger] self.poll_log()[i] == (
            id,
            Some(TaskPoll::Ready),
        )
    }

    /// `id` may be given to a newly spawned task.
    pub open spec fn is_fresh(&self, id: u64) -> bool {
        &&& !self.spawned().contains(id)
        &&& forall|i: int| 0 <= i < self.inbox().len() ==> #[trigger] self.inbox()[i].spec_id() != id
    }

    pub closed spec fn wf(&self) -> bool {
        &&& queue_bound(self.task_queue) == TASK_QUEUE_CAPACITY
        &&& self.new_tasks@.len() <= NEW_TASK_CAPACITY
        &&& forall|k: u64| #[trigger] self.tasks@.contains_key(k) ==> self.tasks@[k].spec_id() == k
        &&& forall|k: u64| #[trigger] self.waker_cache@.contains_key(k) ==> self.tasks@.contains_key(
            k,
        ) && self.waker_cache@[k].spec_task_id() == k
        &&& forall|k: u64| #[trigger]
            self.spawned@.contains(k) <==> (self.tasks@.contains_key(k) || self.completed@.contains(
                k,
            ))
        &&& forall|k: u64| #[trigger]
            self.completed@.contains(k) ==> !self.tasks@.contains_key(k)
        &&& forall|k: u64| #[trigger]
            self.completed@.contains(k) <==> exists|i: int|
                0 <= i < self.log@.len() && #[trigger] self.log@[i] == (k, Some(TaskPoll::Ready))
        &&& forall|i: int, j: int|
            0 <= i < j < self.log@.len() && (#[trigger] self.log@[i]).1 == Some(TaskPoll::Ready) ==> (
            #[trigger] self.log@[j]).0 != self.log@[i].0 || self.log@[j].1 is None
        &&& forall|i: int|
            0 <= i < self.log@.len() && (#[trigger] self.log@[i]).1 is Some ==> self.spawned@.contains(
                self.log@[i].0,
            )
        &&& ids_of(self.log@) + queued_ids(self.task_queue) == self.pushed@
        &&& self.resumes@.len() == self.log@.len()
        &&& forall|i: int|
            0 <= i < self.log@.len() ==> ((#[trigger] self.log@[i]).1 is Some <==> self.resumes@[i] is Some)
        &&& forall|i: int|
            0 <= i < self.log@.len() && (#[trigger] self.resumes@[i]) is Some ==> self.resumes@[i]->Some_0.0.resumed(
                self.resumes@[i]->Some_0.1,
                self.log@[i].0,
                self.resumes@[i]->Some_0.2,
                self.log@[i].1->Some_0,
            )
        &&& forall|i: int|
            0 <= i < self.new_tasks@.len() ==> !self.spawned@.contains(
                (#[trigger] self.new_tasks@[i]).spec_id(),
            )
        &&& forall|i: int, j: int|
            0 <= i < j < self.new_tasks@.len() ==> (#[trigger] self.new_tasks@[i]).spec_id() != (
            #[trigger] self.new_tasks@[j]).spec_id()
    }

    pub fn new() -> (r: Executor<C>)
        ensures
            r.wf(),
            r.ready() == Seq::<u64>::empty(),
            r.table() == Map::<u64, Task<C>>::empty(),
            r.inbox() == Seq::<Task<C>>::empty(),
            r.spawned() == Set::<u64>::empty(),
            r.poll_log() == Seq::<(u64, Option<TaskPoll>)>::empty(),
            r.pushed() == Seq::<u64>::empty(),
    {
        Executor {
            task_queue: id_queue_new(TASK_QUEUE_CAPACITY),
            tasks: BTreeMap::new(),
            waker_cache: BTreeMap::new(),
            new_tasks: Vec::new(),
            spawned: Ghost(Set::empty()),
            completed: Ghost(Set::empty()),
            log: Ghost(Seq::empty()),
            pushed: Ghost(Seq::empty()),
            resumes: Ghost(Seq::empty()),
        }
    }

    /// Places `task` in the new-task inbox, or hands it back unchanged when
    /// the inbox is full.
    pub fn spawn_task(&mut self, task: Task<C>) -> (r: Result<(), Task<C>>)
        requires
            old(self).wf(),
            old(self).is_fresh(task.spec_id()),
        ensures
            final(self).wf(),
            old(self).inbox().len() < NEW_TASK_CAPACITY ==> r is Ok && final(self).inbox() == old(self).inbox().push(task),
            old(self).inbox().len() >= NEW_TASK_CAPACITY ==> r == Err::<(), Task<C>>(task)
                && final(self).inbox() == old(self).inbox(),
            final(self).ready() == old(self).ready(),
            final(self).table() == old(self).table(),
            final(self).spawned() == old(self).spawned(),
            final(self).poll_log() == old(self).poll_log(),
            final(self).pushed() == old(self).pushed(),
            final(self).wakers() == old(self).wakers(),
    {
        if self.new_tasks.len() < NEW_TASK_CAPACITY {
            self.new_tasks.push(task);
            Ok(())
        } else {
            Err(task)
        }
    }

    /// Whether no work is waiting: the ready queue and the inbox are empty.
    /// The caller halts the processor only when this holds, with interrupts
    /// masked around the test.
    pub fn is_idle(&self) -> (r: bool)
        requires
            self.wf(),
        ensures
            r == (self.ready().len() == 0 && self.inbox().len() == 0),
    {
        id_queue_len(&self.task_queue) == 0 && self.new_tasks.len() == 0
    }

    /// Invokes the continuation of task `id`: it is queued to be polled,
    /// unless the ready queue is full, in which case the wake is dropped.
    pub fn wake(&mut self, id: TaskId) -> (r: bool)
        requires
            old(self).wf(),
        ensures
            final(self).wf(),
            r == (old(self).ready().len() < TASK_QUEUE_CAPACITY),
            r ==> final(self).ready() == old(self).ready().push(id.0),
            !r ==> final(self).ready() == old(self).ready(),
            final(self).table() == old(self).table(),
            final(self).inbox() == old(self).inbox(),
            final(self).spawned() == old(self).spawned(),
            final(self).poll_log() == old(self).poll_log(),
            r ==> final(self).pushed() == old(self).pushed().push(id.0),
            !r ==> final(self).pushed() == old(self).pushed(),
            final(self).wakers() == old(self).wakers(),
    {
        let ok = id_queue_push(&mut self.task_queue, id.0).is_ok();
        if ok {
            proof {
                self.pushed@ = self.pushed@.push(id.0);
                assert(ids_of(self.log@) + queued_ids(self.task_queue) =~= self.pushed@);
            }
        }
        ok
    }

    pub fn ready_len(&self) -> (r: usize)
        requires
            self.wf(),
        ensures
            r == self.ready().len(),
    {
        id_queue_len(&self.task_queue)
    }

    pub fn ready_capacity(&self) -> (r: usize)
        requires
            self.wf(),
        ensures
            r == TASK_QUEUE_CAPACITY,
    {
        id_queue_capacity(&self.task_queue)
    }

    pub fn inbox_len(&self) -> (r: usize)
        ensures
            r == self.inbox().len(),
    {
        self.new_tasks.len()
    }

    pub fn task_count(&self) -> (r: usize)
        requires
            self.wf(),
        ensures
            r == self.table().len(),
    {
        self.tasks.len()
    }

    /// Whether task `id` is in the table.
    pub fn contains_task(&self, id: TaskId) -> (r: bool)
        requires
            self.wf(),
        ensures
            r == self.table().contains_key(id.0),
    {
        self.tasks.contains_key(&id.0)
    }

    /// Queues each of `ids` in turn, dropping those that find the ready
    /// queue full.
    fn schedule_all(&mut self, ids: &[u64])
        requires
            old(self).wf(),
        ensures
            final(self).wf(),
            final(self).tasks@ == old(self).tasks@,
            final(self).waker_cache@ == old(self).waker_cache@,
            final(self).new_tasks@ == old(self).new_tasks@,
            final(self).spawned@ == old(self).spawned@,
            final(self).completed@ == old(self).completed@,
            final(self).log@ == old(self).log@,
            final(self).resumes@ == old(self).resumes@,
            old(self).pushed@.is_prefix_of(final(self).pushed@),
    {
        let mut k: usize = 0;
        while k < ids.len()
            invariant
                0 <= k <= ids@.len(),
                self.wf(),
                self.tasks@ == old(self).tasks@,
                self.waker_cache@ == old(self).waker_cache@,
                self.new_tasks@ == old(self).new_tasks@,
                self.spawned@ == old(self).spawned@,
                self.completed@ == old(self).completed@,
                self.log@ == old(self).log@,
                self.resumes@ == old(self).resumes@,
                old(self).pushed@.is_prefix_of(self.pushed@),
            decreases ids@.len() - k,
        {
            let ghost before = self.pushed@;
            if id_queue_push(&mut self.task_queue, ids[k]).is_ok() {
                proof {
                    self.pushed@ = self.pushed@.push(ids@[k as int]);
                    assert(ids_of(self.log@) + queued_ids(self.task_queue) =~= self.pushed@);
                    assert(old(self).pushed@.is_prefix_of(self.pushed@)) by {
                        assert(self.pushed@.subrange(0, old(self).pushed@.len() as int) =~= before.subrange(0, old(self).pushed@.len() as int));
                    }
                }
            }
            k = k + 1;
        }
    }

    /// One scheduling pass. The inbox is moved into the table, each task's
    /// identifier queued, for as long as the ready queue has room; then the
    /// ready queue is drained in order, at most `POLL_BUDGET` identifiers.
    /// Each identifier taken is logged: with the outcome of polling its task
    /// when that task is in the table at its turn, else with `None`. A task
    /// whose poll returns `Ready` leaves the table and the continuation
    /// cache. The continuations a poll invokes (its own, for a task that woke
    /// itself) queue their tasks once it returns; one that finds the queue
    /// full is dropped. Returns how many identifiers were taken off the ready
    /// queue: fewer than `POLL_BUDGET` only when the queue was drained.
    pub fn run_ready_tasks(&mut self) -> (taken: usize)
        requires
            old(self).wf(),
        ensures
            final(self).wf(),
            taken <= POLL_BUDGET,
            taken < POLL_BUDGET ==> final(self).ready().len() == 0,
            old(self).poll_log().is_prefix_of(final(self).poll_log()),
            final(self).poll_log().len() == old(self).poll_log().len() + taken,
            ids_of(old(self).poll_log()) + old(self).ready() == old(self).pushed(),
            ids_of(final(self).poll_log()) + final(self).ready() == final(self).pushed(),
            (old(self).pushed() + Seq::new(
                (old(self).inbox().len() - final(self).inbox().len()) as nat,
                |i: int| old(self).inbox()[i].spec_id(),
            )).is_prefix_of(final(self).pushed()),
            old(self).spawned().subset_of(final(self).spawned()),
            final(self).inbox().len() <= old(self).inbox().len(),
            final(self).inbox() == old(self).inbox().skip(
                old(self).inbox().len() - final(self).inbox().len(),
            ),
            forall|i: int|
                0 <= i < old(self).inbox().len() - final(self).inbox().len() ==> final(self).spawned().contains(#[trigger] old(self).inbox()[i].spec_id()),
            forall|k: u64| #[trigger] final(self).spawned().contains(k) ==> old(self).spawned().contains(k)
                || exists|i: int| 0 <= i < old(self).inbox().len() && old(self).inbox()[i].spec_id() == k,
            old(self).inbox().len() + old(self).ready().len() <= TASK_QUEUE_CAPACITY ==> final(self).inbox().len() == 0,
            forall|i: int|
                old(self).poll_log().len() <= i < final(self).poll_log().len() ==> ((
                #[trigger] final(self).poll_log()[i]).1 is Some <==> (final(self).spawned().contains(
                    final(self).poll_log()[i].0,
                ) && !exists|j: int|
                    0 <= j < i && final(self).poll_log()[j] == (
                        final(self).poll_log()[i].0,
                        Some(TaskPoll::Ready),
                    ))),
            forall|k: u64| #[trigger] final(self).table().contains_key(k) ==> final(self).spawned().contains(k),
            forall|k: u64| #[trigger] final(self).wakers().contains_key(k) ==> final(self).table().contains_key(k),
            forall|k: u64|
                final(self).spawned().contains(k) ==> (!final(self).table().contains_key(k) <==> #[trigger] final(self).finished(k)),
            forall|k: u64| #[trigger] final(self).finished(k) ==> !final(self).wakers().contains_key(k),
            (old(self).inbox().len() + old(self).ready().len() <= TASK_QUEUE_CAPACITY && taken
                < POLL_BUDGET) ==> forall|i: int|
                0 <= i < old(self).inbox().len() ==> polled_between(
                    final(self).poll_log(),
                    old(self).poll_log().len() as int,
                    final(self).poll_log().len() as int,
                    #[trigger] old(self).inbox()[i].spec_id(),
                ),
            forall|i: int|
                old(self).poll_log().len() <= i < final(self).poll_log().len() && (
                #[trigger] final(self).resumes()[i]) is Some ==> final(self).resumes()[i]->Some_0.0
                    == computation_at(
                    old(self).computations(),
                    final(self).poll_log(),
                    final(self).resumes(),
                    old(self).poll_log().len() as int,
                    i,
                    final(self).poll_log()[i].0,
                ) && final(self).resumes()[i]->Some_0.0.resumed(
                    final(self).resumes()[i]->Some_0.1,
                    final(self).poll_log()[i].0,
                    final(self).resumes()[i]->Some_0.2,
                    final(self).poll_log()[i].1->Some_0,
                ),
            forall|i: int|
                old(self).poll_log().len() <= i < final(self).poll_log().len() ==> ((
                #[trigger] final(self).poll_log()[i]).1 is Some <==> final(self).resumes()[i] is Some),
            forall|k: u64| #[trigger]
                final(self).table().contains_key(k) ==> final(self).table()[k].spec_computation()
                    == computation_at(
                    old(self).computations(),
                    final(self).poll_log(),
                    final(self).resumes(),
                    old(self).poll_log().len() as int,
                    final(self).poll_log().len() as int,
                    k,
                ),
    {
        let ghost start = *self;
        let ghost mut moved: int = 0;
        while self.new_tasks.len() > 0 && id_queue_len(&self.task_queue) < TASK_QUEUE_CAPACITY
            invariant
                self.wf(),
                start.wf(),
                start == *old(self),
                0 <= moved <= start.new_tasks@.len(),
                self.new_tasks@ == start.new_tasks@.skip(moved),
                self.log@ == start.log@,
                self.resumes@ == start.resumes@,
                self.completed@ == start.completed@,
                start.spawned@.subset_of(self.spawned@),
                forall|k: u64| #[trigger] self.tasks@.contains_key(k) ==> start.computations().contains_key(k)
                    && self.tasks@[k].spec_computation() == start.computations()[k],
                forall|i: int|
                    0 <= i < moved ==> self.spawned@.contains(
                        #[trigger] start.new_tasks@[i].spec_id(),
                    ),
                forall|k: u64| #[trigger] self.spawned@.contains(k) ==> start.spawned@.contains(k)
                    || exists|i: int| 0 <= i < start.new_tasks@.len() && start.new_tasks@[i].spec_id() == k,
                self.pushed@ == start.pushed@ + Seq::new(moved as nat, |i: int| start.new_tasks@[i].spec_id()),
                start.new_tasks@.len() + queued_ids(start.task_queue).len() <= TASK_QUEUE_CAPACITY
                    ==> queued_ids(self.task_queue).len() + self.new_tasks@.len() <= TASK_QUEUE_CAPACITY,
            decreases self.new_tasks@.len(),
        {
            let ghost before = self.new_tasks@;
            let task = self.new_tasks.remove(0);
            let id = task.id.0;
            proof {
                assert(task == start.new_tasks@[moved]);
                assert forall|i: int| 0 <= i < self.new_tasks@.len() implies (
                #[trigger] self.new_tasks@[i]).spec_id() != id by {
                    assert(self.new_tasks@[i] == before[i + 1]);
                }
                assert forall|i: int| 0 <= i < self.new_tasks@.len() implies !self.spawned@.contains(
                    (#[trigger] self.new_tasks@[i]).spec_id(),
                ) by {
                    assert(self.new_tasks@[i] == before[i + 1]);
                }
                assert forall|i: int, j: int|
                    0 <= i < j < self.new_tasks@.len() implies (#[trigger] self.new_tasks@[i]).spec_id() != (
                    #[trigger] self.new_tasks@[j]).spec_id() by {
                    assert(self.new_tasks@[i] == before[i + 1]);
                    assert(self.new_tasks@[j] == before[j + 1]);
                }
            }
            proof {
                let m = moved;
                assert(start.wf());
                assert(start.new_tasks@[m].spec_id() == id);
                assert(!start.spawned@.contains(start.new_tasks@[m].spec_id()));
                assert(!start.spawned@.contains(id));
                if start.tasks@.contains_key(id) {
                    assert(start.spawned@.contains(id));
                }
                assert(!start.tasks@.contains_key(id));
                assert(exists|i: int| 0 <= i < start.new_tasks@.len() && start.new_tasks@[i].spec_id() == id);
                let c = choose|i: int| 0 <= i < start.new_tasks@.len() && start.new_tasks@[i].spec_id() == id;
                if c != m {
                    if c < m {
                        assert(start.new_tasks@[c].spec_id() != start.new_tasks@[m].spec_id());
                    } else {
                        assert(start.new_tasks@[m].spec_id() != start.new_tasks@[c].spec_id());
                    }
                }
                assert(start.computations().contains_key(id));
                assert(start.computations()[id] == task.spec_computation());
            }
            self.tasks.insert(id, task);
            let _ = id_queue_push(&mut self.task_queue, id);
            proof {
                self.spawned@ = self.spawned@.insert(id);
                self.pushed@ = self.pushed@.push(id);
                moved = moved + 1;
                assert(self.new_tasks@ =~= start.new_tasks@.skip(moved));
                assert(self.pushed@ =~= start.pushed@ + Seq::new(moved as nat, |i: int| start.new_tasks@[i].spec_id()));
                assert(ids_of(self.log@) + queued_ids(self.task_queue) =~= self.pushed@);
                assert forall|k: u64| #[trigger] self.spawned@.contains(k) implies start.spawned@.contains(k)
                    || exists|i: int| 0 <= i < start.new_tasks@.len() && start.new_tasks@[i].spec_id() == k by {
                    if k == id {
                        assert(start.new_tasks@[moved - 1].spec_id() == k);
                    }
                }
            }
        }
        let ghost mid = *self;
        let mut budget: usize = POLL_BUDGET;
        let mut drained = false;
        while budget > 0
            invariant
                self.wf(),
                start.wf(),
                start == *old(self),
                budget <= POLL_BUDGET,
                drained ==> queued_ids(self.task_queue).len() == 0,
                start.log@.is_prefix_of(self.log@),
                self.log@.len() == start.log@.len() + (POLL_BUDGET - budget),
                mid.log@ == start.log@,
                self.resumes@.len() == self.log@.len(),
                start.resumes@.len() == start.log@.len(),
                forall|i: int| 0 <= i < start.log@.len() ==> #[trigger] self.resumes@[i] == start.resumes@[i],
                forall|k: u64| #[trigger] self.tasks@.contains_key(k) ==> self.tasks@[k].spec_computation()
                    == computation_at(start.computations(), self.log@, self.resumes@, start.log@.len() as int, self.log@.len() as int, k),
                forall|i: int|
                    start.log@.len() <= i < self.log@.len() && (#[trigger] self.resumes@[i]) is Some ==> self.resumes@[i]->Some_0.0
                        == computation_at(start.computations(), self.log@, self.resumes@, start.log@.len() as int, i, self.log@[i].0),
                mid.pushed@.is_prefix_of(self.pushed@),
                self.spawned@ == mid.spawned@,
                start.spawned@.subset_of(self.spawned@),
                self.new_tasks@ == start.new_tasks@.skip(moved),
                0 <= moved <= start.new_tasks@.len(),
                forall|i: int|
                    0 <= i < moved ==> self.spawned@.contains(
                        #[trigger] start.new_tasks@[i].spec_id(),
                    ),
                start.new_tasks@.len() + queued_ids(start.task_queue).len() <= TASK_QUEUE_CAPACITY
                    ==> self.new_tasks@.len() == 0,
                forall|i: int|
                    start.log@.len() <= i < self.log@.len() ==> ((#[trigger] self.log@[i]).1 is Some <==> (
                    self.spawned@.contains(self.log@[i].0) && !exists|j: int|
                        0 <= j < i && self.log@[j] == (self.log@[i].0, Some(TaskPoll::Ready)))),
            ensures
                drained || budget == 0,
            decreases budget,
        {
            let ghost before = *self;
            let next = id_queue_pop(&mut self.task_queue);
            let id = match next {
                None => {
                    drained = true;
                    break;
                },
                Some(id) => id,
            };
            budget = budget - 1;
            let ghost pre = *self;
            let ghost n = pre.log@.len();
            proof {
                assert(id == queued_ids(before.task_queue)[0]);
                assert(pre.tasks@.contains_key(id) <==> (pre.spawned@.contains(id) && !exists|j: int|
                    0 <= j < n && pre.log@[j] == (id, Some(TaskPoll::Ready)))) by {
                    if exists|j: int| 0 <= j < n && pre.log@[j] == (id, Some(TaskPoll::Ready)) {
                        assert(pre.completed@.contains(id));
                    }
                    if pre.spawned@.contains(id) && !pre.tasks@.contains_key(id) {
                        assert(pre.completed@.contains(id));
                    }
                }
            }
            let removed = self.tasks.remove(&id);
            if let Some(mut task) = removed {
                assert(pre.tasks@.contains_key(id));
                let waker = match self.waker_cache.get(&id) {
                    Some(waker) => *waker,
                    None => {
                        let waker = TaskWaker::new(id);
                        self.waker_cache.insert(id, waker);
                        waker
                    },
                };
                let mut context = waker.context();
                let ghost before_comp = task.spec_computation();
                let outcome = task.poll(&mut context);
                proof {
                    assert(context.spec_wakes().skip(0) =~= context.spec_wakes());
                    self.log@ = self.log@.push((id, Some(outcome)));
                    self.resumes@ = self.resumes@.push(Some((before_comp, task.spec_computation(), context.spec_wakes())));
                }
                match outcome {
                    TaskPoll::Ready => {
                        self.waker_cache.remove(&id);
                        proof {
                            self.completed@ = self.completed@.insert(id);
                        }
                    },
                    TaskPoll::Suspended => {
                        self.tasks.insert(id, task);
                    },
                }
                proof {
                    assert(self.log@[n as int] == (id, Some(outcome)));
                    assert forall|i: int| 0 <= i < n implies #[trigger] self.log@[i] == pre.log@[i] by {}
                    assert forall|k: u64| #[trigger]
                        self.completed@.contains(k) <==> exists|i: int|
                            0 <= i < self.log@.len() && #[trigger] self.log@[i] == (k, Some(TaskPoll::Ready)) by {
                        if self.completed@.contains(k) {
                            if k == id && outcome == TaskPoll::Ready {
                                assert(self.log@[n as int] == (k, Some(TaskPoll::Ready)));
                            } else {
                                assert(pre.completed@.contains(k));
                                let i = choose|i: int| 0 <= i < pre.log@.len() && #[trigger] pre.log@[i] == (k, Some(TaskPoll::Ready));
                                assert(self.log@[i] == (k, Some(TaskPoll::Ready)));
                            }
                        }
                        if exists|i: int| 0 <= i < self.log@.len() && #[trigger] self.log@[i] == (k, Some(TaskPoll::Ready)) {
                            let i = choose|i: int| 0 <= i < self.log@.len() && #[trigger] self.log@[i] == (k, Some(TaskPoll::Ready));
                            if i < n {
                                assert(pre.log@[i] == (k, Some(TaskPoll::Ready)));
                            }
                        }
                    }
                    assert forall|i: int, j: int|
                        0 <= i < j < self.log@.len() && (#[trigger] self.log@[i]).1 == Some(TaskPoll::Ready) implies (
                        #[trigger] self.log@[j]).0 != self.log@[i].0 || self.log@[j].1 is None by {
                        if j == n {
                            assert(pre.log@[i] == self.log@[i]);
                            assert(pre.completed@.contains(pre.log@[i].0));
                        } else {
                            assert(pre.log@[i] == self.log@[i]);
                            assert(pre.log@[j] == self.log@[j]);
                        }
                    }
                    assert(ids_of(self.log@) + queued_ids(self.task_queue) =~= self.pushed@) by {
                        assert(ids_of(before.log@) + queued_ids(before.task_queue) == before.pushed@);
                    }
                    assert(self.wf());
                }
                self.schedule_all(context.wakes());
            } else {
                proof {
                    self.log@ = self.log@.push((id, None));
                    self.resumes@ = self.resumes@.push(None);
                    assert(self.log@[n as int] == (id, None::<TaskPoll>));
                    assert forall|i: int| 0 <= i < n implies #[trigger] self.log@[i] == pre.log@[i] by {}
                    assert forall|k: u64| #[trigger]
                        self.completed@.contains(k) <==> exists|i: int|
                            0 <= i < self.log@.len() && #[trigger] self.log@[i] == (k, Some(TaskPoll::Ready)) by {
                        if self.completed@.contains(k) {
                            let i = choose|i: int| 0 <= i < pre.log@.len() && #[trigger] pre.log@[i] == (k, Some(TaskPoll::Ready));
                            assert(self.log@[i] == (k, Some(TaskPoll::Ready)));
                        }
                        if exists|i: int| 0 <= i < self.log@.len() && #[trigger] self.log@[i] == (k, Some(TaskPoll::Ready)) {
                            let i = choose|i: int| 0 <= i < self.log@.len() && #[trigger] self.log@[i] == (k, Some(TaskPoll::Ready));
                            assert(i < n);
                            assert(pre.log@[i] == (k, Some(TaskPoll::Ready)));
                        }
                    }
                    assert forall|i: int, j: int|
                        0 <= i < j < self.log@.len() && (#[trigger] self.log@[i]).1 == Some(TaskPoll::Ready) implies (
                        #[trigger] self.log@[j]).0 != self.log@[i].0 || self.log@[j].1 is None by {
                        if j < n {
                            assert(pre.log@[i] == self.log@[i]);
                            assert(pre.log@[j] == self.log@[j]);
                        }
                    }
                    assert(ids_of(self.log@) + queued_ids(self.task_queue) =~= self.pushed@) by {
                        assert(ids_of(before.log@) + queued_ids(before.task_queue) == before.pushed@);
                    }
                    assert(self.wf());
                }
            }
            proof {
                let h0 = start.log@.len() as int;
                let base = start.computations();
                assert forall|j: int| 0 <= j < n implies self.log@[j] == pre.log@[j] && self.resumes@[j] == pre.resumes@[j] by {}
                assert forall|i: int|
                    h0 <= i < self.log@.len() && (#[trigger] self.resumes@[i]) is Some implies self.resumes@[i]->Some_0.0
                        == computation_at(base, self.log@, self.resumes@, h0, i, self.log@[i].0) by {
                    lemma_computation_at_prefix(base, pre.log@, pre.resumes@, self.log@, self.resumes@, h0, i, self.log@[i].0);
                    if i < n {
                        assert(self.resumes@[i] == pre.resumes@[i]);
                        assert(self.log@[i] == pre.log@[i]);
                    }
                }
                assert forall|k: u64| #[trigger] self.tasks@.contains_key(k) implies self.tasks@[k].spec_computation()
                    == computation_at(base, self.log@, self.resumes@, h0, self.log@.len() as int, k) by {
                    lemma_computation_at_prefix(base, pre.log@, pre.resumes@, self.log@, self.resumes@, h0, n as int, k);
                    if k != id {
                        assert(pre.tasks@.contains_key(k));
                    }
                }
                assert forall|i: int| 0 <= i < start.log@.len() implies #[trigger] self.resumes@[i] == start.resumes@[i] by {
                    assert(self.resumes@[i] == pre.resumes@[i]);
                }
                assert forall|i: int|
                    start.log@.len() <= i < self.log@.len() implies ((#[trigger] self.log@[i]).1 is Some <==> (
                    self.spawned@.contains(self.log@[i].0) && !exists|j: int|
                        0 <= j < i && self.log@[j] == (self.log@[i].0, Some(TaskPoll::Ready)))) by {
                    if i < n {
                        assert(self.log@[i] == pre.log@[i]);
                        assert forall|j: int| 0 <= j < i implies self.log@[j] == pre.log@[j] by {}
                    } else {
                        assert forall|j: int| 0 <= j < i implies self.log@[j] == pre.log@[j] by {}
                    }
                }
                assert(start.log@.is_prefix_of(self.log@)) by {
                    assert forall|i: int| 0 <= i < start.log@.len() implies self.log@[i] == start.log@[i] by {
                        assert(self.log@[i] == pre.log@[i]);
                    }
                }
            }
        }
        proof {
            assert(ids_of(start.log@) + queued_ids(start.task_queue) == start.pushed@);
            assert forall|k: u64| #[trigger] self.finished(k) implies self.completed@.contains(k) by {
                let i = choose|i: int| 0 <= i < self.poll_log().len() && #[trigger] self.poll_log()[i] == (k, Some(TaskPoll::Ready));
                assert(self.log@[i] == (k, Some(TaskPoll::Ready)));
            }
            assert forall|k: u64| self.spawned@.contains(k) implies (!self.table().contains_key(k) <==> #[trigger] self.finished(k)) by {
                if !self.tasks@.contains_key(k) {
                    assert(self.completed@.contains(k));
                    let i = choose|i: int| 0 <= i < self.log@.len() && #[trigger] self.log@[i] == (k, Some(TaskPoll::Ready));
                    assert(self.poll_log()[i] == (k, Some(TaskPoll::Ready)));
                }
            }
        }
        proof {
            let h0 = start.log@.len() as int;
            if start.new_tasks@.len() + queued_ids(start.task_queue).len() <= TASK_QUEUE_CAPACITY && budget > 0 {
                assert(drained);
                let p0 = start.pushed@.len() as int;
                assert(p0 == h0 + queued_ids(start.task_queue).len()) by {
                    assert((ids_of(start.log@) + queued_ids(start.task_queue)).len() == start.pushed@.len());
                }
                assert(moved == start.new_tasks@.len());
                assert(ids_of(self.log@) =~= self.pushed@) by {
                    assert(queued_ids(self.task_queue) =~= Seq::<u64>::empty());
                }
                assert forall|i: int| 0 <= i < start.new_tasks@.len() implies polled_between(
                    self.log@, h0, self.log@.len() as int, #[trigger] start.new_tasks@[i].spec_id()) by {
                    let id = start.new_tasks@[i].spec_id();
                    let p = p0 + i;
                    assert(mid.pushed@[p] == id);
                    assert(self.pushed@[p] == id);
                    assert(ids_of(self.log@)[p] == id);
                    assert(self.log@[p].0 == id);
                    assert(!start.spawned@.contains(start.new_tasks@[i].spec_id()));
                    assert(self.spawned@.contains(start.new_tasks@[i].spec_id()));
                    if self.log@[p].1 is None {
                        let j = choose|j: int| 0 <= j < p && self.log@[j] == (id, Some(TaskPoll::Ready));
                        if j < h0 {
                            assert(start.log@[j] == self.log@[j]);
                            assert(start.spawned@.contains(start.log@[j].0));
                        }
                        assert(self.log@[j].1 is Some);
                    } else {
                        assert(self.log@[p].1 is Some);
                    }
                }
            }
        }
        POLL_BUDGET - budget
    }
}

/// Places `ts` in the executor's inbox, or hands it back unchanged when
/// the inbox is full.
pub fn spawn_task<C: Computation>(executor: &mut Executor<C>, ts: Task<C>) -> (r: Result<(), Task<C>>)
    requires
        old(executor).wf(),
        old(executor).is_fresh(ts.spec_id()),
    ensures
        final(executor).wf(),
        old(executor).inbox().len() < NEW_TASK_CAPACITY ==> r is Ok && final(executor).inbox() == old(executor).inbox().push(ts),
        old(executor).inbox().len() >= NEW_TASK_CAPACITY ==> r == Err::<(), Task<C>>(ts)
            && final(executor).inbox() == old(executor).inbox(),
        final(executor).ready() == old(executor).ready(),
        final(executor).table() == old(executor).table(),
        final(executor).spawned() == old(executor).spawned(),
        final(executor).poll_log() == old(executor).poll_log(),
        final(executor).pushed() == old(executor).pushed(),
        final(executor).wakers() == old(executor).wakers(),
{
    executor.spawn_task(ts)
}

/// In every state an executor reaches, every task in the table was spawned
/// and every cached continuation belongs to a task in the table.
pub proof fn lemma_table_spawned<C: Computation>(e: &Executor<C>)
    requires
        e.wf(),
    ensures
        forall|k: u64| #[trigger] e.table().contains_key(k) ==> e.spawned().contains(k),
        forall|k: u64| #[trigger] e.wakers().contains_key(k) ==> e.table().contains_key(k),
{
}

/// In every state an executor reaches: a task taken into the table has
/// left it exactly when some poll of it returned `Ready`, after which it is
/// out of the continuation cache and never polled again; and the ready
/// queue is first in, first out: the identifiers taken so far followed by
/// those waiting are exactly those ever queued.
pub proof fn lemma_removed_iff_finished<C: Computation>(e: &Executor<C>, id: u64)
    requires
        e.wf(),
        e.spawned().contains(id),
    ensures
        !e.table().contains_key(id) <==> e.finished(id),
        e.finished(id) ==> !e.wakers().contains_key(id),
        forall|i: int, j: int|
            0 <= i < j < e.poll_log().len() && #[trigger] e.poll_log()[i] == (id, Some(TaskPoll::Ready))
                && (#[trigger] e.poll_log()[j]).0 == id ==> e.poll_log()[j].1 is None,
        ids_of(e.poll_log()) + e.ready() == e.pushed(),
{
    if e.finished(id) {
        let i = choose|i: int| 0 <= i < e.poll_log().len() && #[trigger] e.poll_log()[i] == (
            id,
            Some(TaskPoll::Ready),
        );
        assert(e.log@[i] == (id, Some(TaskPoll::Ready)));
        assert(e.completed@.contains(id));
    }
    if !e.table().contains_key(id) {
        assert(e.completed@.contains(id));
        let i = choose|i: int| 0 <= i < e.log@.len() && #[trigger] e.log@[i] == (id, Some(TaskPoll::Ready));
        assert(e.poll_log()[i] == (id, Some(TaskPoll::Ready)));
    }
    assert forall|i: int, j: int|
        0 <= i < j < e.poll_log().len() && #[trigger] e.poll_log()[i] == (id, Some(TaskPoll::Ready))
            && (#[trigger] e.poll_log()[j]).0 == id implies e.poll_log()[j].1 is None by {
        assert(e.log@[i].1 == Some(TaskPoll::Ready));
    }
}

} // verus!
