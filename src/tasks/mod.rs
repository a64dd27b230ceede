use vstd::prelude::*;

pub mod executor;
pub mod keyboard;
pub mod mpsc;
pub mod queue;
pub mod timer;
pub mod waker;

verus! {

/// The outcome of resuming a suspended computation once.
#[derive(Clone, Copy, Debug, PartialEq, Eq, Structural)]
pub enum TaskPoll {
    Ready,
    Suspended,
}

/// The outcome of polling an asynchronous operation: its value, or a
/// suspension until the registered continuation is invoked.
#[derive(Clone, Copy, Debug)]
pub enum Poll<T> {
    Ready(T),
    Suspended,
}

/// Identifier of a schedulable unit; never reused by one counter.
#[derive(Clone, Copy, Debug, PartialEq, Eq, Structural, PartialOrd, Ord, Hash)]
pub struct TaskId(pub u64);

/// Source of fresh task identifiers: a monotonically increasing counter.
pub struct TaskIdCounter {
    next: u64,
}

impl TaskIdCounter {
    pub closed spec fn next_value(&self) -> u64 {
        self.next
    }

    pub fn new() -> (r: TaskIdCounter)
        ensures
            r.next_value() == 0,
    {
        TaskIdCounter { next: 0 }
    }

    /// The identifier that the next allocation will hand out.
    pub fn peek(&self) -> (r: u64)
        ensures
            r == self.next_value(),
    {
        self.next
    }
}

impl TaskId {
    /// Allocates a fresh identifier from `counter`.
    pub fn new(counter: &mut TaskIdCounter) -> (r: TaskId)
        requires
            old(counter).next_value() < u64::MAX,
        ensures
            r.0 == old(counter).next_value(),
            final(counter).next_value() == old(counter).next_value() + 1,
    {
        let id = counter.next;
        counter.next = counter.next + 1;
        TaskId(id)
    }
}

/// What a computation sees while it is resumed: the task it belongs to,
/// and the continuations it invokes, in order. Each invoked continuation
/// schedules its task once the poll returns.
pub struct Context {
    task: u64,
    wakes: Vec<u64>,
}

impl Context {
    pub closed spec fn spec_task(&self) -> u64 {
        self.task
    }

    /// The tasks whose continuations were invoked, in order.
    pub closed spec fn spec_wakes(&self) -> Seq<u64> {
        self.wakes@
    }

    pub fn new(task: u64) -> (r: Context)
        ensures
            r.spec_task() == task,
            r.spec_wakes() == Seq::<u64>::empty(),
    {
        Context { task, wakes: Vec::new() }
    }

    pub fn task_id(&self) -> (r: u64)
        ensures
            r == self.spec_task(),
    {
        self.task
    }

    /// Invokes the continuation of the task being resumed: it is to be
    /// polled again.
    pub fn wake(&mut self)
        ensures
            final(self).spec_task() == old(self).spec_task(),
            final(self).spec_wakes() == old(self).spec_wakes().push(old(self).spec_task()),
    {
        let task = self.task;
        self.wakes.push(task);
    }

    /// Invokes the continuation of `task`, e.g. one taken from a
    /// continuation cell.
    pub fn wake_task(&mut self, task: u64)
        ensures
            final(self).spec_task() == old(self).spec_task(),
            final(self).spec_wakes() == old(self).spec_wakes().push(task),
    {
        self.wakes.push(task);
    }

    /// The tasks whose continuations were invoked, in order.
    pub fn wakes(&self) -> (r: &[u64])
        ensures
            r@ == self.spec_wakes(),
    {
        self.wakes.as_slice()
    }
}

/// A suspended computation that can be resumed in place.
pub trait Computation: Sized {
    /// Resuming `self` once, for task `task`, may leave `next`, invoke the
    /// continuations of the tasks `woken` in that order, and return `r`.
    /// A computation that states nothing about itself allows any outcome.
    open spec fn resumed(&self, next: Self, task: u64, woken: Seq<u64>, r: TaskPoll) -> bool {
        true
    }

    fn resume(&mut self, cx: &mut Context) -> (r: TaskPoll)
        ensures
            final(cx).spec_task() == old(cx).spec_task(),
            old(cx).spec_wakes().is_prefix_of(final(cx).spec_wakes()),
            old(self).resumed(
                *final(self),
                old(cx).spec_task(),
                final(cx).spec_wakes().skip(old(cx).spec_wakes().len() as int),
                r,
            ),
    ;
}

/// One unit of suspended, resumable computation.
pub struct Task<C> {
    id: TaskId,
    desc: Option<String>,
    computation: C,
}

impl<C: Computation> Task<C> {
    pub closed spec fn spec_id(&self) -> u64 {
        self.id.0
    }

    pub closed spec fn spec_desc(&self) -> Option<String> {
        self.desc
    }

    pub closed spec fn spec_computation(&self) -> C {
        self.computation
    }

    /// A task with a fresh identifier and a label.
    pub fn new(counter: &mut TaskIdCounter, computation: C, desc: String) -> (r: Task<C>)
        requires
            old(counter).next_value() < u64::MAX,
        ensures
            r.spec_id() == old(counter).next_value(),
            final(counter).next_value() == old(counter).next_value() + 1,
            r.spec_desc() == Some(desc),
            r.spec_computation() == computation,
    {
        let id = TaskId::new(counter);
        Task { id, desc: Some(desc), computation }
    }

    /// A task with a fresh identifier and no label.
    pub fn no_desc(counter: &mut TaskIdCounter, computation: C) -> (r: Task<C>)
        requires
            old(counter).next_value() < u64::MAX,
        ensures
            r.spec_id() == old(counter).next_value(),
            final(counter).next_value() == old(counter).next_value() + 1,
            r.spec_desc() == None::<String>,
            r.spec_computation() == computation,
    {
        let id = TaskId::new(counter);
        Task { id, desc: None, computation }
    }

    pub fn id(&self) -> (r: TaskId)
        ensures
            r.0 == self.spec_id(),
    {
        self.id
    }

    pub fn desc(&self) -> (r: &Option<String>)
        ensures
            *r == self.spec_desc(),
    {
        &self.desc
    }

    /// Resumes the computation once: the result, its new state and the
    /// continuations it invokes are those of one resume of the computation.
    pub fn poll(&mut self, context: &mut Context) -> (r: TaskPoll)
        ensures
            final(self).spec_id() == old(self).spec_id(),
            final(self).spec_desc() == old(self).spec_desc(),
            final(context).spec_task() == old(context).spec_task(),
            old(context).spec_wakes().is_prefix_of(final(context).spec_wakes()),
            old(self).spec_computation().resumed(
                final(self).spec_computation(),
                old(context).spec_task(),
                final(context).spec_wakes().skip(old(context).spec_wakes().len() as int),
                r,
            ),
    {
        self.computation.resume(context)
    }
}

/// A computation that suspends once, waking itself, and completes when
/// resumed the second time.
#[derive(Debug)]
pub struct Yield {
    yielded: bool,
}

impl Yield {
    pub closed spec fn spec_yielded(&self) -> bool {
        self.yielded
    }
}

/// A computation that gives the other ready tasks one turn.
pub fn yield_task() -> (r: Yield)
    ensures
        !r.spec_yielded(),
{
    Yield { yielded: false }
}

impl Yield {
    pub fn poll(&mut self, cx: &mut Context) -> (r: TaskPoll)
        ensures
            old(self).spec_yielded() ==> r == TaskPoll::Ready && final(cx).spec_wakes() == old(
                cx,
            ).spec_wakes(),
            !old(self).spec_yielded() ==> r == TaskPoll::Suspended && final(cx).spec_wakes()
                == old(cx).spec_wakes().push(old(cx).spec_task()),
            final(self).spec_yielded(),
            final(cx).spec_task() == old(cx).spec_task(),
    {
        if self.yielded {
            TaskPoll::Ready
        } else {
            self.yielded = true;
            cx.wake();
            TaskPoll::Suspended
        }
    }
}

impl Computation for Yield {
    /// The first resume wakes the task and suspends; later ones complete.
    open spec fn resumed(&self, next: Self, task: u64, woken: Seq<u64>, r: TaskPoll) -> bool {
        &&& next.spec_yielded()
        &&& if self.spec_yielded() {
            r == TaskPoll::Ready && woken == Seq::<u64>::empty()
        } else {
            r == TaskPoll::Suspended && woken == seq![task]
        }
    }

    fn resume(&mut self, cx: &mut Context) -> TaskPoll {
        let r = self.poll(cx);
        proof {
            assert(cx.spec_wakes().skip(old(cx).spec_wakes().len() as int) =~= if old(self).spec_yielded() {
                Seq::<u64>::empty()
            } else {
                seq![old(cx).spec_task()]
            });
        }
        r
    }
}

} // verus!
