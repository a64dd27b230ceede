use std::cell::Cell;
use std::rc::Rc;

use coop_kernel::sync::{Mutex, MutexKeys, TryLockError};
use coop_kernel::tasks::executor::{spawn_task, Executor, NEW_TASK_CAPACITY, TASK_QUEUE_CAPACITY};
use coop_kernel::tasks::keyboard::{ScanCodeStream, SCANCODE_QUEUE_CAPACITY};
use coop_kernel::tasks::mpsc::{channel, TrySendError};
use coop_kernel::tasks::timer::{
    current_tick, init, next_tick, sleep, Clock, PendingTimer, Sleep, TickStream, TimerEvent,
    TimerQueue, TIMER_REQUEST_CAPACITY,
};
use coop_kernel::tasks::{
    yield_task, Computation, Context, Poll, Task, TaskId, TaskIdCounter, TaskPoll, Yield,
};

/// Never completes and never wakes itself.
struct Forever;

impl Computation for Forever {
    fn resume(&mut self, _cx: &mut Context) -> TaskPoll {
        TaskPoll::Suspended
    }
}

/// Completes on its first poll.
struct Immediate;

impl Computation for Immediate {
    fn resume(&mut self, _cx: &mut Context) -> TaskPoll {
        TaskPoll::Ready
    }
}

enum Job {
    Forever(Forever),
    Immediate(Immediate),
    Yield(Yield),
    /// Counts its polls; never completes.
    Count(Rc<Cell<u32>>),
    /// Invokes the continuation of another task, then completes.
    WakeOther(u64),
}

impl Computation for Job {
    fn resume(&mut self, cx: &mut Context) -> TaskPoll {
        match self {
            Job::Forever(f) => f.resume(cx),
            Job::Immediate(i) => i.resume(cx),
            Job::Yield(y) => y.resume(cx),
            Job::Count(n) => {
                n.set(n.get() + 1);
                TaskPoll::Suspended
            }
            Job::WakeOther(target) => {
                cx.wake_task(*target);
                TaskPoll::Ready
            }
        }
    }
}

#[test]
fn scenario_suspended_task_stays_ready_task_leaves() {
    let mut ids = TaskIdCounter::new();
    let mut ex: Executor<Job> = Executor::new();
    let x = Task::new(&mut ids, Job::Forever(Forever), "x".to_string());
    let y = Task::new(&mut ids, Job::Immediate(Immediate), "y".to_string());
    let (xid, yid) = (x.id(), y.id());
    assert!(ex.spawn_task(x).is_ok());
    assert!(ex.spawn_task(y).is_ok());
    ex.run_ready_tasks();
    assert!(ex.contains_task(xid));
    assert!(!ex.contains_task(yid));
    assert_eq!(ex.task_count(), 1);
    assert!(ex.is_idle());
}

#[test]
fn scenario_full_inbox_hands_task_back() {
    let mut ids = TaskIdCounter::new();
    let mut ex: Executor<Job> = Executor::new();
    for _ in 0..NEW_TASK_CAPACITY {
        let t = Task::no_desc(&mut ids, Job::Forever(Forever));
        assert!(ex.spawn_task(t).is_ok());
    }
    assert_eq!(ex.inbox_len(), NEW_TASK_CAPACITY);
    let t = Task::new(&mut ids, Job::Immediate(Immediate), "late".to_string());
    let id = t.id();
    let back = match ex.spawn_task(t) {
        Err(t) => t,
        Ok(()) => panic!("a full inbox accepted a task"),
    };
    assert_eq!(back.id(), id);
    assert_eq!(back.desc().as_deref(), Some("late"));
    assert_eq!(ex.inbox_len(), NEW_TASK_CAPACITY);
    assert!(!ex.contains_task(id));
}

#[test]
fn completed_task_is_never_polled_again() {
    let mut ids = TaskIdCounter::new();
    let mut ex: Executor<Job> = Executor::new();
    let t = Task::no_desc(&mut ids, Job::Immediate(Immediate));
    let id = t.id();
    assert!(spawn_task(&mut ex, t).is_ok());
    ex.run_ready_tasks();
    assert!(!ex.contains_task(id));
    // A stale wake of the finished task is skipped.
    assert!(ex.wake(id));
    ex.run_ready_tasks();
    assert!(!ex.contains_task(id));
    assert!(ex.is_idle());
}

#[test]
fn yielding_task_is_repolled_in_the_same_pass() {
    let mut ids = TaskIdCounter::new();
    let mut ex: Executor<Job> = Executor::new();
    let t = Task::new(&mut ids, Job::Yield(yield_task()), "yield".to_string());
    let id = t.id();
    assert!(spawn_task(&mut ex, t).is_ok());
    ex.run_ready_tasks();
    assert!(!ex.contains_task(id));
}

#[test]
fn wake_requeues_suspended_task() {
    let mut ids = TaskIdCounter::new();
    let mut ex: Executor<Job> = Executor::new();
    let t = Task::no_desc(&mut ids, Job::Forever(Forever));
    let id = t.id();
    assert!(spawn_task(&mut ex, t).is_ok());
    ex.run_ready_tasks();
    assert!(ex.is_idle());
    assert!(ex.wake(id));
    assert_eq!(ex.ready_len(), 1);
    assert!(!ex.is_idle());
    ex.run_ready_tasks();
    assert!(ex.contains_task(id));
    assert!(ex.is_idle());
}

#[test]
fn wake_on_full_ready_queue_is_dropped() {
    let mut ex: Executor<Job> = Executor::new();
    assert_eq!(ex.ready_capacity(), TASK_QUEUE_CAPACITY);
    for i in 0..TASK_QUEUE_CAPACITY {
        assert!(ex.wake(TaskId(i as u64)));
    }
    assert!(!ex.wake(TaskId(999)));
    assert_eq!(ex.ready_len(), TASK_QUEUE_CAPACITY);
}

#[test]
fn task_ids_increase() {
    let mut ids = TaskIdCounter::new();
    assert_eq!(TaskId::new(&mut ids), TaskId(0));
    assert_eq!(TaskId::new(&mut ids), TaskId(1));
    assert_eq!(ids.peek(), 2);
    let t = Task::no_desc(&mut ids, Forever);
    assert_eq!(t.id(), TaskId(2));
    assert!(t.desc().is_none());
}

#[test]
fn yield_suspends_once_then_completes() {
    let mut y = yield_task();
    let mut cx = Context::new(7);
    assert_eq!(y.poll(&mut cx), TaskPoll::Suspended);
    assert_eq!(cx.wakes(), &[7]);
    let mut cx = Context::new(7);
    assert_eq!(y.poll(&mut cx), TaskPoll::Ready);
    assert!(cx.wakes().is_empty());
    assert_eq!(cx.task_id(), 7);
    cx.wake_task(3);
    cx.wake();
    assert_eq!(cx.wakes(), &[3, 7]);
}

#[test]
fn scenario_channel_of_one() {
    let mut ch = channel::<u32>(1);
    assert!(ch.try_send(1).is_ok());
    match ch.try_send(2) {
        Err(TrySendError::Full(2)) => {}
        _ => panic!("expected Full(2)"),
    }
    match ch.poll_recv(9) {
        Poll::Ready(Some(1)) => {}
        _ => panic!("expected Some(1)"),
    }
    assert!(ch.try_send(2).is_ok());
}

#[test]
fn channel_fills_to_capacity_then_full() {
    let mut ch = channel::<u64>(5);
    for i in 0..5 {
        assert!(ch.try_send(i).is_ok());
    }
    let e = ch.try_send(5).unwrap_err();
    assert!(e.is_full());
    assert_eq!(e.message(), "channel full");
    assert_eq!(e.into_inner(), 5);
    assert_eq!(ch.len(), 5);
    assert_eq!(ch.capacity(), 5);
}

#[test]
fn closed_channel_drains_then_none() {
    let mut ch = channel::<u8>(4);
    ch.try_send(7).unwrap();
    ch.try_send(8).unwrap();
    ch.close();
    assert!(ch.is_closed());
    match ch.try_send(9) {
        Err(TrySendError::Closed(9)) => {}
        _ => panic!("expected Closed(9)"),
    }
    assert!(matches!(ch.poll_recv(1), Poll::Ready(Some(7))));
    assert!(matches!(ch.poll_recv(1), Poll::Ready(Some(8))));
    assert!(matches!(ch.poll_recv(1), Poll::Ready(None)));
    assert!(matches!(ch.poll_recv(1), Poll::Ready(None)));
    assert!(!ch.receiver_waiting());
}

#[test]
fn empty_open_channel_suspends_and_send_wakes() {
    let mut ch = channel::<u8>(2);
    assert!(matches!(ch.poll_recv(4), Poll::Suspended));
    assert!(ch.receiver_waiting());
    assert!(matches!(ch.poll_recv(5), Poll::Suspended));
    assert_eq!(ch.try_send(3).unwrap(), Some(5));
    assert!(!ch.receiver_waiting());
    assert_eq!(ch.try_send(4).unwrap(), None);
    assert_eq!(TrySendError::Closed(1u8).message(), "channel closed");
}

#[test]
fn scenario_sleep_five_ticks() {
    let mut clock = Clock::new();
    let (_task, mut handle) = init();
    let mut cx = Context::new(3);
    let s = Sleep::new(&mut handle, &clock, 5, &mut cx);
    assert_eq!(s.deadline(), 5);
    for _ in 0..4 {
        assert_eq!(next_tick(&mut clock), None);
    }
    assert_eq!(current_tick(&clock), 4);
    assert_eq!(s.poll(&clock), TaskPoll::Suspended);
    assert_eq!(next_tick(&mut clock), None);
    assert_eq!(s.poll(&clock), TaskPoll::Ready);
}

#[test]
fn timer_fires_earlier_deadline_first_and_equal_together() {
    let (mut task, mut handle) = init();
    let mut clock = Clock::new();
    let timer_id = 100;
    let _a = sleep(&mut handle, &clock, 3, &mut Context::new(1));
    assert!(task.run_once(&mut handle, &mut clock, timer_id).is_empty());
    let mut cx = Context::new(2);
    let _b = handle.sleep(&clock, 5, &mut cx);
    // The request woke the timer task, which waited on the channel.
    assert_eq!(cx.wakes(), &[timer_id]);
    let _c = handle.sleep(&clock, 5, &mut Context::new(3));
    assert!(task.run_once(&mut handle, &mut clock, timer_id).is_empty());
    assert_eq!(task.pending_len(), 3);
    assert_eq!(next_tick(&mut clock), Some(timer_id));
    next_tick(&mut clock);
    next_tick(&mut clock);
    let fired = task.run_once(&mut handle, &mut clock, timer_id);
    assert_eq!(fired, vec![PendingTimer::new(3, 1)]);
    next_tick(&mut clock);
    assert!(task.run_once(&mut handle, &mut clock, timer_id).is_empty());
    next_tick(&mut clock);
    let fired = task.run_once(&mut handle, &mut clock, timer_id);
    assert_eq!(fired, vec![PendingTimer::new(5, 2), PendingTimer::new(5, 3)]);
    assert_eq!(task.pending_len(), 0);
}

#[test]
fn timer_request_channel_has_fixed_room() {
    let (_task, mut handle) = init();
    let clock = Clock::new();
    for i in 0..TIMER_REQUEST_CAPACITY {
        assert!(handle.has_room());
        let _ = handle.sleep(&clock, 1, &mut Context::new(i as u64));
    }
    assert!(!handle.has_room());
}

#[test]
fn timer_queue_fire_keeps_order() {
    let mut q = TimerQueue::new();
    q.register(PendingTimer::new(10, 1));
    q.register(PendingTimer::new(2, 2));
    q.register(PendingTimer::new(7, 3));
    q.register(PendingTimer::new(2, 4));
    let fired = q.fire(7);
    assert_eq!(fired, vec![PendingTimer::new(2, 2), PendingTimer::new(7, 3), PendingTimer::new(2, 4)]);
    assert_eq!(q.len(), 1);
    let none = q.handle_event(TimerEvent::NewTask(PendingTimer::new(1, 5)));
    assert!(none.is_empty());
    let fired = q.handle_event(TimerEvent::Tick(100));
    assert_eq!(fired, vec![PendingTimer::new(10, 1), PendingTimer::new(1, 5)]);
}

#[test]
fn tick_stream_reports_each_advance_once() {
    let mut clock = Clock::new();
    let mut ticks = TickStream::new();
    assert!(matches!(ticks.poll_next(&mut clock, 8), Poll::Suspended));
    assert_eq!(next_tick(&mut clock), Some(8));
    assert_eq!(next_tick(&mut clock), None);
    assert!(matches!(ticks.poll_next(&mut clock, 8), Poll::Ready(2)));
    assert!(matches!(ticks.poll_next(&mut clock, 8), Poll::Suspended));
}

#[test]
fn mutex_allows_one_guard() {
    let mut keys = MutexKeys::new();
    let mut m = Mutex::new(&mut keys, 5u32);
    let mut other = Mutex::new(&mut keys, 0u8);
    assert_ne!(m.key(), other.key());
    let og = other.try_lock().unwrap();
    assert_eq!(og.key(), other.key());
    assert_eq!(other.unlock(og), None);
    let g = m.try_lock().unwrap();
    assert_eq!(g.key(), m.key());
    assert!(m.is_locked());
    assert!(matches!(m.try_lock(), Err(TryLockError::Locked)));
    assert_eq!(TryLockError::Locked.message(), "mutex was locked");
    *m.get_with_guard(&g) += 1;
    assert_eq!(*m.get(&g), 6);
    assert_eq!(m.unlock(g), None);
    assert!(!m.is_locked());
    let g = m.try_lock().unwrap();
    assert_eq!(m.unlock(g), None);
    assert_eq!(m.into_inner(), 6);
}

#[test]
fn mutex_release_wakes_oldest_waiter() {
    let mut keys = MutexKeys::new();
    let mut m = Mutex::new(&mut keys, ());
    let g = m.try_lock().unwrap();
    assert!(matches!(m.poll_lock(10), Poll::Suspended));
    assert!(matches!(m.poll_lock(11), Poll::Suspended));
    assert!(matches!(m.poll_lock(10), Poll::Suspended));
    assert_eq!(m.unlock(g), Some(10));
    let g = match m.poll_lock(10) {
        Poll::Ready(g) => g,
        Poll::Suspended => panic!("a released mutex refused its waiter"),
    };
    assert_eq!(m.unlock(g), Some(11));
    *m.get_mut() = ();
    // A waiter that takes the lock leaves the wait list.
    let g = m.try_lock().unwrap();
    assert!(matches!(m.poll_lock(12), Poll::Suspended));
    assert!(matches!(m.poll_lock(13), Poll::Suspended));
    assert_eq!(m.unlock(g), Some(12));
    let g = match m.poll_lock(13) {
        Poll::Ready(g) => g,
        Poll::Suspended => panic!("a free mutex refused a waiter"),
    };
    assert_eq!(m.unlock(g), None);
    // The waiting acquire, as a future of its own.
    let g = m.try_lock().unwrap();
    let fut = m.lock(20);
    assert!(matches!(fut.poll(&mut m), Poll::Suspended));
    assert_eq!(m.unlock(g), Some(20));
    let g = match fut.poll(&mut m) {
        Poll::Ready(g) => g,
        Poll::Suspended => panic!("a free mutex refused a waiting acquire"),
    };
    assert_eq!(m.unlock(g), None);
}

#[test]
fn scancodes_are_queued_and_dropped_when_full() {
    let mut s = ScanCodeStream::new();
    assert!(matches!(s.poll_next(6), Poll::Suspended));
    assert_eq!(s.add_scancode(0), Ok(Some(6)));
    for i in 1..SCANCODE_QUEUE_CAPACITY {
        assert_eq!(s.add_scancode(i as u8), Ok(None));
    }
    assert_eq!(s.add_scancode(255), Err(255));
    assert!(matches!(s.poll_next(6), Poll::Ready(Some(0))));
    assert!(matches!(s.poll_next(6), Poll::Ready(Some(1))));
}

#[test]
fn continuation_invoked_in_a_poll_schedules_its_task() {
    let mut ids = TaskIdCounter::new();
    let mut ex: Executor<Job> = Executor::new();
    let polls = Rc::new(Cell::new(0u32));
    let counted = Task::no_desc(&mut ids, Job::Count(polls.clone()));
    let cid = counted.id();
    assert!(spawn_task(&mut ex, counted).is_ok());
    ex.run_ready_tasks();
    assert_eq!(polls.get(), 1);
    assert!(ex.is_idle());
    let waker = Task::no_desc(&mut ids, Job::WakeOther(cid.0));
    assert!(spawn_task(&mut ex, waker).is_ok());
    assert_eq!(ex.run_ready_tasks(), 2);
    assert_eq!(polls.get(), 2);
    assert_eq!(ex.task_count(), 1);
}

#[test]
fn receiver_task_is_woken_by_a_send() {
    let mut ch = channel::<u8>(1);
    let mut ids = TaskIdCounter::new();
    let mut ex: Executor<Job> = Executor::new();
    let polls = Rc::new(Cell::new(0u32));
    let t = Task::no_desc(&mut ids, Job::Count(polls.clone()));
    let id = t.id();
    assert!(spawn_task(&mut ex, t).is_ok());
    ex.run_ready_tasks();
    assert!(matches!(ch.poll_recv(id.0), Poll::Suspended));
    let woken = ch.try_send(1).unwrap();
    assert_eq!(woken, Some(id.0));
    assert!(ex.wake(TaskId(woken.unwrap())));
    ex.run_ready_tasks();
    assert_eq!(polls.get(), 2);
}

#[test]
fn free_spawn_task_hands_back_on_full_inbox() {
    let mut ids = TaskIdCounter::new();
    let mut ex: Executor<Job> = Executor::new();
    for _ in 0..NEW_TASK_CAPACITY {
        assert!(spawn_task(&mut ex, Task::no_desc(&mut ids, Job::Forever(Forever))).is_ok());
    }
    let t = Task::no_desc(&mut ids, Job::Immediate(Immediate));
    let id = t.id();
    match spawn_task(&mut ex, t) {
        Err(back) => assert_eq!(back.id(), id),
        Ok(()) => panic!("a full inbox accepted a task"),
    }
}
