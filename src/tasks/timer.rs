use vstd::prelude::*;
use super::{Context, Poll, TaskPoll};
use super::waker::AtomicWaker;
use super::mpsc::{channel, send_spec, recv_spec, Channel, ChannelState, TrySendError};

verus! {

/// Capacity of the channel that carries new sleep requests to the timer.
pub const TIMER_REQUEST_CAPACITY: usize = 32;

/// The kernel's logical clock: the number of timer interrupts so far, and
/// the continuation of the task waiting for the next one.
pub struct Clock {
    tick: u64,
    waker: AtomicWaker,
}

impl Clock {
    pub closed spec fn spec_tick(&self) -> u64 {
        self.tick
    }

    /// The registered continuation of the task waiting for a tick.
    pub closed spec fn spec_waiter(&self) -> Option<u64> {
        self.waker@
    }

    pub fn new() -> (r: Clock)
        ensures
            r.spec_tick() == 0,
            r.spec_waiter() == None::<u64>,
    {
        Clock { tick: 0, waker: AtomicWaker::new() }
    }
}

/// The last tick that occurred.
pub fn current_tick(clock: &Clock) -> (r: u64)
    ensures
        r == clock.spec_tick(),
{
    clock.tick
}

/// Advances the clock by one tick; called once per timer interrupt. The
/// waiting task's continuation is invoked: its task is returned, to be
/// scheduled.
pub fn next_tick(clock: &mut Clock) -> (r: Option<u64>)
    requires
        old(clock).spec_tick() < u64::MAX,
    ensures
        final(clock).spec_tick() == old(clock).spec_tick() + 1,
        r == old(clock).spec_waiter(),
        final(clock).spec_waiter() == None::<u64>,
{
    clock.tick = clock.tick + 1;
    clock.waker.wake()
}

/// A registered sleep request: its absolute deadline and the sleeper to wake.
#[derive(Clone, Copy, Debug, PartialEq, Eq, Structural)]
pub struct PendingTimer {
    pub tick: u64,
    pub sleeper: u64,
}

impl PendingTimer {
    pub fn new(tick: u64, sleeper: u64) -> (r: PendingTimer)
        ensures
            r == (PendingTimer { tick, sleeper }),
    {
        PendingTimer { tick, sleeper }
    }
}

/// The requests that are due at `tick`.
pub open spec fn due(pending: Seq<PendingTimer>, tick: u64) -> Seq<PendingTimer> {
    pending.filter(|p: PendingTimer| p.tick <= tick)
}

/// The requests that are still waiting after `tick`.
pub open spec fn not_due(pending: Seq<PendingTimer>, tick: u64) -> Seq<PendingTimer> {
    pending.filter(|p: PendingTimer| p.tick > tick)
}

/// Turns the clock into a sequence of events: each poll yields the current
/// tick if it has advanced since the last one yielded.
pub struct TickStream {
    last_tick: u64,
}

impl TickStream {
    pub closed spec fn spec_last_tick(&self) -> u64 {
        self.last_tick
    }

    pub fn new() -> (r: TickStream)
        ensures
            r.spec_last_tick() == 0,
    {
        TickStream { last_tick: 0 }
    }

    /// The current tick if it has advanced; otherwise `waiter` registers its
    /// continuation with the clock and suspends.
    pub fn poll_next(&mut self, clock: &mut Clock, waiter: u64) -> (r: Poll<u64>)
        ensures
            final(clock).spec_tick() == old(clock).spec_tick(),
            old(self).spec_last_tick() < old(clock).spec_tick() ==> r == Poll::Ready(
                old(clock).spec_tick(),
            ) && final(self).spec_last_tick() == old(clock).spec_tick() && final(clock).spec_waiter()
                == old(clock).spec_waiter(),
            old(self).spec_last_tick() >= old(clock).spec_tick() ==> r is Suspended && final(self).spec_last_tick() == old(self).spec_last_tick() && final(clock).spec_waiter() == Some(waiter),
    {
        let tick = current_tick(clock);
        if self.last_tick < tick {
            self.last_tick = tick;
            Poll::Ready(tick)
        } else {
            clock.waker.register(waiter);
            Poll::Suspended
        }
    }
}

/// An event of the timer task.
#[derive(Clone, Copy, Debug)]
pub enum TimerEvent {
    Tick(u64),
    NewTask(PendingTimer),
}

/// The timer task's pending requests.
pub struct TimerQueue {
    pending: Vec<PendingTimer>,
}

impl TimerQueue {
    pub closed spec fn view(&self) -> Seq<PendingTimer> {
        self.pending@
    }

    pub fn new() -> (r: TimerQueue)
        ensures
            r@ == Seq::<PendingTimer>::empty(),
    {
        TimerQueue { pending: Vec::new() }
    }

    pub fn len(&self) -> (r: usize)
        ensures
            r == self@.len(),
    {
        self.pending.len()
    }

    pub fn register(&mut self, timer: PendingTimer)
        ensures
            final(self)@ == old(self)@.push(timer),
    {
        self.pending.push(timer);
    }

    /// Removes and returns every request whose deadline has been reached at
    /// `tick`; the others keep waiting, in their order.
    pub fn fire(&mut self, tick: u64) -> (r: Vec<PendingTimer>)
        ensures
            r@ == due(old(self)@, tick),
            final(self)@ == not_due(old(self)@, tick),
    {
        let mut fired: Vec<PendingTimer> = Vec::new();
        let mut waiting: Vec<PendingTimer> = Vec::new();
        let mut i: usize = 0;
        while i < self.pending.len()
            invariant
                0 <= i <= self.pending@.len(),
                self.pending@ == old(self).pending@,
                fired@ == due(self.pending@.take(i as int), tick),
                waiting@ == not_due(self.pending@.take(i as int), tick),
            decreases self.pending@.len() - i,
        {
            let p = self.pending[i];
            proof {
                let s = self.pending@.take(i as int + 1);
                assert(s.drop_last() =~= self.pending@.take(i as int));
                assert(s.last() == p);
                reveal(Seq::filter);
            }
            if p.tick <= tick {
                fired.push(p);
            } else {
                waiting.push(p);
            }
            i = i + 1;
        }
        proof {
            assert(self.pending@.take(i as int) =~= self.pending@);
        }
        self.pending = waiting;
        fired
    }

    /// One step of the timer task: a tick fires the requests that are due,
    /// a new request is stored.
    pub fn handle_event(&mut self, event: TimerEvent) -> (r: Vec<PendingTimer>)
        ensures
            match event {
                TimerEvent::Tick(tick) => r@ == due(old(self)@, tick) && final(self)@ == not_due(
                    old(self)@,
                    tick,
                ),
                TimerEvent::NewTask(t) => r@.len() == 0 && final(self)@ == old(self)@.push(t),
            },
    {
        match event {
            TimerEvent::Tick(tick) => self.fire(tick),
            TimerEvent::NewTask(t) => {
                self.register(t);
                Vec::new()
            },
        }
    }
}

/// A sleep in progress: ready once the clock reaches its deadline, which is
/// fixed when the sleep is created.
#[derive(Clone, Copy, Debug)]
pub struct Sleep {
    tick: u64,
    sleeper: u64,
}

impl Sleep {
    pub closed spec fn spec_deadline(&self) -> u64 {
        self.tick
    }

    /// The task whose continuation the timer invokes at the deadline.
    pub closed spec fn spec_sleeper(&self) -> u64 {
        self.sleeper
    }

    /// A sleep of `ticks` ticks from now for the task being resumed in `cx`.
    /// Its deadline is fixed here, and its request, carrying the task's
    /// continuation, is sent to the timer task through `handle`; the send
    /// invokes the timer task's continuation. The request channel must
    /// accept it: the timer task lives as long as the kernel.
    pub fn new(handle: &mut TimerHandle, clock: &Clock, ticks: u64, cx: &mut Context) -> (r: Sleep)
        requires
            old(handle).wf(),
            !old(handle).is_closed_spec(),
            old(handle).requests().len() < old(handle).room(),
            clock.spec_tick() + ticks <= u64::MAX,
        ensures
            final(handle).wf(),
            r.spec_deadline() == clock.spec_tick() + ticks,
            r.spec_sleeper() == old(cx).spec_task(),
            final(handle).requests() == old(handle).requests().push(
                PendingTimer { tick: r.spec_deadline(), sleeper: old(cx).spec_task() },
            ),
            final(handle).room() == old(handle).room(),
            !final(handle).is_closed_spec(),
            final(handle).timer_waiter() == None::<u64>,
            final(cx).spec_task() == old(cx).spec_task(),
            final(cx).spec_wakes() == match old(handle).timer_waiter() {
                Some(t) => old(cx).spec_wakes().push(t),
                None => old(cx).spec_wakes(),
            },
    {
        let now = current_tick(clock);
        let s = Sleep { tick: now + ticks, sleeper: cx.task_id() };
        let pending = PendingTimer::new(s.tick, s.sleeper);
        if let Ok(Some(timer)) = handle.requests.try_send(pending) {
            cx.wake_task(timer);
        }
        s
    }

    pub fn deadline(&self) -> (r: u64)
        ensures
            r == self.spec_deadline(),
    {
        self.tick
    }

    pub fn poll(&self, clock: &Clock) -> (r: TaskPoll)
        ensures
            r == (if clock.spec_tick() >= self.spec_deadline() {
                TaskPoll::Ready
            } else {
                TaskPoll::Suspended
            }),
    {
        if current_tick(clock) >= self.tick {
            TaskPoll::Ready
        } else {
            TaskPoll::Suspended
        }
    }
}

/// Whenever a request is due, every pending request with an earlier or
/// equal deadline is due at the same tick; requests with equal deadlines
/// are due together.
pub proof fn lemma_earlier_deadline_fires_first(
    pending: Seq<PendingTimer>,
    a: PendingTimer,
    b: PendingTimer,
    tick: u64,
)
    requires
        pending.contains(a),
        pending.contains(b),
        a.tick <= b.tick,
    ensures
        due(pending, tick).contains(b) ==> due(pending, tick).contains(a),
        a.tick == b.tick ==> (due(pending, tick).contains(a) <==> due(pending, tick).contains(b)),
        due(pending, tick).contains(a) ==> !not_due(pending, tick).contains(a),
{
    broadcast use vstd::seq_lib::group_filter_ensures;
    let f = |p: PendingTimer| p.tick <= tick;
    let g = |p: PendingTimer| p.tick > tick;
    if due(pending, tick).contains(b) {
        assert(b.tick <= tick);
        let i = choose|i: int| 0 <= i < pending.len() && pending[i] == a;
        assert(f(pending[i]));
    }
    if a.tick == b.tick && due(pending, tick).contains(a) {
        let i = choose|i: int| 0 <= i < pending.len() && pending[i] == b;
        assert(f(pending[i]));
    }
    if due(pending, tick).contains(a) && not_due(pending, tick).contains(a) {
        let i = choose|i: int| 0 <= i < due(pending, tick).len() && due(pending, tick)[i] == a;
        let j = choose|j: int| 0 <= j < not_due(pending, tick).len() && not_due(pending, tick)[j] == a;
        assert(f(due(pending, tick)[i]));
        assert(g(not_due(pending, tick)[j]));
    }
}

/// The sending side of the timer: sleeps register through it.
pub struct TimerHandle {
    requests: Channel<PendingTimer>,
}

/// The timer task: the pending requests and its view of the clock.
pub struct TimerTask {
    queue: TimerQueue,
    ticks: TickStream,
}

/// Creates the timer task and the handle through which sleeps register.
pub fn init() -> (r: (TimerTask, TimerHandle))
    ensures
        r.0.pending() == Seq::<PendingTimer>::empty(),
        r.0.last_tick() == 0,
        r.1.wf(),
        r.1.requests() == Seq::<PendingTimer>::empty(),
        !r.1.is_closed_spec(),
        r.1.room() == TIMER_REQUEST_CAPACITY,
{
    let task = TimerTask { queue: TimerQueue::new(), ticks: TickStream::new() };
    let handle = TimerHandle { requests: channel(TIMER_REQUEST_CAPACITY) };
    (task, handle)
}

impl TimerHandle {
    pub closed spec fn wf(&self) -> bool {
        self.requests.wf()
    }

    /// Requests sent and not yet taken by the timer task, oldest first.
    pub closed spec fn requests(&self) -> Seq<PendingTimer> {
        self.requests@.items
    }

    pub closed spec fn room(&self) -> nat {
        self.requests@.capacity
    }

    pub closed spec fn is_closed_spec(&self) -> bool {
        self.requests@.closed
    }

    pub fn has_room(&self) -> (r: bool)
        ensures
            r == (!self.is_closed_spec() && self.requests().len() < self.room()),
    {
        !self.requests.is_closed() && self.requests.len() < self.requests.capacity()
    }

    /// The registered continuation of the timer task, waiting for requests.
    pub closed spec fn timer_waiter(&self) -> Option<u64> {
        self.requests@.receiver
    }

    /// A sleep of `ticks` ticks for the task being resumed in `cx`; see
    /// `Sleep::new`.
    pub fn sleep(&mut self, clock: &Clock, ticks: u64, cx: &mut Context) -> (r: Sleep)
        requires
            old(self).wf(),
            !old(self).is_closed_spec(),
            old(self).requests().len() < old(self).room(),
            clock.spec_tick() + ticks <= u64::MAX,
        ensures
            final(self).wf(),
            r.spec_deadline() == clock.spec_tick() + ticks,
            final(self).requests() == old(self).requests().push(
                PendingTimer { tick: r.spec_deadline(), sleeper: old(cx).spec_task() },
            ),
            final(self).room() == old(self).room(),
            !final(self).is_closed_spec(),
            final(self).timer_waiter() == None::<u64>,
            final(cx).spec_task() == old(cx).spec_task(),
            final(cx).spec_wakes() == match old(self).timer_waiter() {
                Some(t) => old(cx).spec_wakes().push(t),
                None => old(cx).spec_wakes(),
            },
    {
        Sleep::new(self, clock, ticks, cx)
    }
}

/// A sleep of `ticks` ticks through `handle`; see `TimerHandle::sleep`.
pub fn sleep(handle: &mut TimerHandle, clock: &Clock, ticks: u64, cx: &mut Context) -> (r: Sleep)
    requires
        old(handle).wf(),
        !old(handle).is_closed_spec(),
        old(handle).requests().len() < old(handle).room(),
        clock.spec_tick() + ticks <= u64::MAX,
    ensures
        final(handle).wf(),
        r.spec_deadline() == clock.spec_tick() + ticks,
        final(handle).requests() == old(handle).requests().push(
            PendingTimer { tick: r.spec_deadline(), sleeper: old(cx).spec_task() },
        ),
        final(cx).spec_task() == old(cx).spec_task(),
        final(cx).spec_wakes() == match old(handle).timer_waiter() {
            Some(t) => old(cx).spec_wakes().push(t),
            None => old(cx).spec_wakes(),
        },
{
    handle.sleep(clock, ticks, cx)
}

impl TimerTask {
    pub closed spec fn pending(&self) -> Seq<PendingTimer> {
        self.queue@
    }

    pub closed spec fn last_tick(&self) -> u64 {
        self.ticks.spec_last_tick()
    }

    pub fn pending_len(&self) -> (r: usize)
        ensures
            r == self.pending().len(),
    {
        self.queue.len()
    }

    /// One turn of the timer task: it takes every request waiting in the
    /// channel into its queue, then, if the clock has advanced since its
    /// last turn, fires every request that is due. Returns the fired ones,
    /// whose sleepers are to be scheduled. When nothing was fired, the timer
    /// task `me` has registered its continuation with the channel and the
    /// clock.
    pub fn run_once(&mut self, handle: &mut TimerHandle, clock: &mut Clock, me: u64) -> (r: Vec<
        PendingTimer,
    >)
        requires
            old(handle).wf(),
        ensures
            final(handle).wf(),
            final(clock).spec_tick() == old(clock).spec_tick(),
            final(handle).requests() == Seq::<PendingTimer>::empty(),
            final(handle).room() == old(handle).room(),
            final(handle).is_closed_spec() == old(handle).is_closed_spec(),
            old(self).last_tick() < old(clock).spec_tick() ==> r@ == due(
                old(self).pending() + old(handle).requests(),
                old(clock).spec_tick(),
            ) && final(self).pending() == not_due(
                old(self).pending() + old(handle).requests(),
                old(clock).spec_tick(),
            ) && final(self).last_tick() == old(clock).spec_tick(),
            old(self).last_tick() >= old(clock).spec_tick() ==> r@.len() == 0 && final(self).pending()
                == old(self).pending() + old(handle).requests() && final(self).last_tick() == old(self).last_tick()
                && final(clock).spec_waiter() == Some(me),
            !old(handle).is_closed_spec() ==> final(handle).timer_waiter() == Some(me),
    {
        let ghost start_requests = handle.requests();
        let ghost start_pending = self.queue@;
        let mut done = false;
        while !done
            invariant
                handle.wf(),
                handle.room() == old(handle).room(),
                handle.is_closed_spec() == old(handle).is_closed_spec(),
                self.ticks == old(self).ticks,
                done && !handle.is_closed_spec() ==> handle.timer_waiter() == Some(me),
                start_pending + start_requests == self.queue@ + handle.requests(),
                done ==> handle.requests().len() == 0,
            decreases handle.requests().len() + if done { 0int } else { 1int },
        {
            let ghost before = handle.requests();
            match handle.requests.poll_recv(me) {
                Poll::Ready(Some(t)) => {
                    proof {
                        assert(before =~= seq![t] + handle.requests());
                    }
                    let ghost q = self.queue@;
                    self.queue.register(t);
                    proof {
                        assert(q + before =~= self.queue@ + handle.requests());
                    }
                },
                _ => {
                    done = true;
                },
            }
        }
        proof {
            assert(self.queue@ =~= start_pending + start_requests);
        }
        match self.ticks.poll_next(clock, me) {
            Poll::Ready(tick) => self.queue.handle_event(TimerEvent::Tick(tick)),
            Poll::Suspended => Vec::new(),
        }
    }
}

} // verus!
