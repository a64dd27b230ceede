use vstd::prelude::*;
use super::Poll;
use super::waker::AtomicWaker;

verus! {

/// Why a message was not accepted; the message is handed back.
#[derive(Clone, Copy, Debug)]
pub enum TrySendError<T> {
    Full(T),
    Closed(T),
}

impl<T> TrySendError<T> {
    /// The rejected message.
    pub fn into_inner(self) -> (r: T)
        ensures
            r == match self {
                TrySendError::Full(m) => m,
                TrySendError::Closed(m) => m,
            },
    {
        match self {
            TrySendError::Full(m) => m,
            TrySendError::Closed(m) => m,
        }
    }

    pub fn is_full(&self) -> (r: bool)
        ensures
            r == (*self is Full),
    {
        match self {
            TrySendError::Full(_) => true,
            TrySendError::Closed(_) => false,
        }
    }

    /// A short description of the failure.
    pub fn message(&self) -> (r: &'static str)
        ensures
            *self is Full ==> r@ == "channel full"@,
            *self is Closed ==> r@ == "channel closed"@,
    {
        match self {
            TrySendError::Full(_) => "channel full",
            TrySendError::Closed(_) => "channel closed",
        }
    }
}

/// The abstract state of a channel.
pub struct ChannelState<T> {
    pub items: Seq<T>,
    pub capacity: nat,
    pub closed: bool,
    /// The receiver's registered continuation.
    pub receiver: Option<u64>,
}

/// What `try_send` does to a channel in state `s`: a success invokes the
/// receiver's registered continuation, which it returns.
pub open spec fn send_spec<T>(s: ChannelState<T>, m: T) -> (ChannelState<T>, Result<
    Option<u64>,
    TrySendError<T>,
>) {
    if s.closed {
        (s, Err(TrySendError::Closed(m)))
    } else if s.items.len() >= s.capacity {
        (s, Err(TrySendError::Full(m)))
    } else {
        (ChannelState { items: s.items.push(m), receiver: None, ..s }, Ok(s.receiver))
    }
}

/// What one poll of the receiver, on behalf of task `waiter`, does to a
/// channel in state `s`.
pub open spec fn recv_spec<T>(s: ChannelState<T>, waiter: u64) -> (ChannelState<T>, Poll<Option<T>>) {
    if s.items.len() > 0 {
        (ChannelState { items: s.items.drop_first(), ..s }, Poll::Ready(Some(s.items[0])))
    } else if s.closed {
        (s, Poll::Ready(None))
    } else {
        (ChannelState { receiver: Some(waiter), ..s }, Poll::Suspended)
    }
}

/// Bounded channel between producers and one consumer: a fixed-capacity
/// FIFO queue, one continuation slot for the receiver, and a closed flag
/// that never clears.
pub struct Channel<T> {
    // A `Vec` kept within `capacity`: what a queue of an outside crate holds
    // can be described here only for plain values, not for a generic `T`.
    queue: Vec<T>,
    capacity: usize,
    closed: bool,
    waker: AtomicWaker,
}

/// A channel holding at most `capacity` messages.
pub fn channel<T>(capacity: usize) -> (r: Channel<T>)
    requires
        capacity > 0,
    ensures
        r.wf(),
        r@ == (ChannelState::<T> {
            items: Seq::empty(),
            capacity: capacity as nat,
            closed: false,
            receiver: None,
        }),
{
    Channel { queue: Vec::new(), capacity, closed: false, waker: AtomicWaker::new() }
}

impl<T> Channel<T> {
    pub closed spec fn view(&self) -> ChannelState<T> {
        ChannelState {
            items: self.queue@,
            capacity: self.capacity as nat,
            closed: self.closed,
            receiver: self.waker@,
        }
    }

    pub closed spec fn wf(&self) -> bool {
        self.queue@.len() <= self.capacity
    }

    /// Queues `message` unless the channel is closed or full; a success
    /// invokes the receiver's registered continuation and returns its task,
    /// to be scheduled.
    pub fn try_send(&mut self, message: T) -> (r: Result<Option<u64>, TrySendError<T>>)
        requires
            old(self).wf(),
        ensures
            final(self).wf(),
            (final(self)@, r) == send_spec(old(self)@, message),
    {
        if self.closed {
            Err(TrySendError::Closed(message))
        } else if self.queue.len() >= self.capacity {
            Err(TrySendError::Full(message))
        } else {
            self.queue.push(message);
            Ok(self.waker.wake())
        }
    }

    pub fn is_closed(&self) -> (r: bool)
        ensures
            r == self@.closed,
    {
        self.closed
    }

    pub fn capacity(&self) -> (r: usize)
        ensures
            r == self@.capacity,
    {
        self.capacity
    }

    pub fn len(&self) -> (r: usize)
        ensures
            r == self@.items.len(),
    {
        self.queue.len()
    }

    /// Whether the receiver has registered its continuation and waits.
    pub fn receiver_waiting(&self) -> (r: bool)
        ensures
            r == self@.receiver is Some,
    {
        match self.waker.view_exec() {
            Some(_) => true,
            None => false,
        }
    }

    /// Takes the oldest message; once the channel is empty and closed the
    /// result is `None`; otherwise `waiter` registers its continuation and
    /// suspends.
    pub fn poll_recv(&mut self, waiter: u64) -> (r: Poll<Option<T>>)
        requires
            old(self).wf(),
        ensures
            final(self).wf(),
            (final(self)@, r) == recv_spec(old(self)@, waiter),
    {
        if self.queue.len() > 0 {
            let item = self.queue.remove(0);
            Poll::Ready(Some(item))
        } else if self.closed {
            Poll::Ready(None)
        } else {
            self.waker.register(waiter);
            Poll::Suspended
        }
    }

    /// Closes the channel: no message is accepted afterwards.
    pub fn close(&mut self)
        requires
            old(self).wf(),
        ensures
            final(self).wf(),
            final(self)@ == (ChannelState { closed: true, ..old(self)@ }),
    {
        self.closed = true;
    }
}

/// The state after sending each of `msgs` in turn, with the outcomes.
pub open spec fn send_all<T>(s: ChannelState<T>, msgs: Seq<T>) -> (ChannelState<T>, Seq<
    Result<Option<u64>, TrySendError<T>>,
>)
    decreases msgs.len(),
{
    if msgs.len() == 0 {
        (s, Seq::empty())
    } else {
        let (s1, rs) = send_all(s, msgs.drop_last());
        let (s2, r) = send_spec(s1, msgs.last());
        (s2, rs.push(r))
    }
}

/// The state after `n` polls of the receiver by task `waiter`, with the
/// outcomes.
pub open spec fn recv_n<T>(s: ChannelState<T>, n: nat, waiter: u64) -> (ChannelState<T>, Seq<Poll<Option<T>>>)
    decreases n,
{
    if n == 0 {
        (s, Seq::empty())
    } else {
        let (s1, rs) = recv_n(s, (n - 1) as nat, waiter);
        let (s2, r) = recv_spec(s1, waiter);
        (s2, rs.push(r))
    }
}

proof fn lemma_sends_below_capacity<T>(s: ChannelState<T>, msgs: Seq<T>)
    requires
        !s.closed,
        s.items.len() == 0,
        msgs.len() <= s.capacity,
    ensures
        send_all(s, msgs).0.items == msgs,
        !send_all(s, msgs).0.closed,
        send_all(s, msgs).0.capacity == s.capacity,
        send_all(s, msgs).1.len() == msgs.len(),
        forall|i: int| 0 <= i < msgs.len() ==> #[trigger] send_all(s, msgs).1[i] is Ok,
    decreases msgs.len(),
{
    if msgs.len() > 0 {
        lemma_sends_below_capacity(s, msgs.drop_last());
        assert(msgs.drop_last().push(msgs.last()) =~= msgs);
        let rs = send_all(s, msgs.drop_last()).1;
        assert forall|i: int| 0 <= i < msgs.len() implies #[trigger] send_all(s, msgs).1[i] is Ok by {
            if i < msgs.len() - 1 {
                assert(send_all(s, msgs).1[i] == rs[i]);
            }
        }
    }
}

/// On an open, empty channel of capacity `c`, `c` successive sends succeed
/// and the next one fails with `Full`, handing its message back.
pub proof fn lemma_sends_until_full<T>(s: ChannelState<T>, msgs: Seq<T>)
    requires
        !s.closed,
        s.items.len() == 0,
        msgs.len() == s.capacity + 1,
    ensures
        forall|i: int| 0 <= i < s.capacity ==> #[trigger] send_all(s, msgs).1[i] is Ok,
        send_all(s, msgs).1[s.capacity as int] == Err::<Option<u64>, TrySendError<T>>(
            TrySendError::Full(msgs.last()),
        ),
{
    lemma_sends_below_capacity(s, msgs.drop_last());
    let rs = send_all(s, msgs.drop_last()).1;
    assert forall|i: int| 0 <= i < s.capacity implies #[trigger] send_all(s, msgs).1[i] is Ok by {
        assert(send_all(s, msgs).1[i] == rs[i]);
    }
}

proof fn lemma_recv_closed_prefix<T>(s: ChannelState<T>, n: nat, waiter: u64)
    requires
        s.closed,
        n <= s.items.len(),
    ensures
        recv_n(s, n, waiter).0.items == s.items.skip(n as int),
        recv_n(s, n, waiter).0.closed,
        recv_n(s, n, waiter).1.len() == n,
        forall|i: int| 0 <= i < n ==> #[trigger] recv_n(s, n, waiter).1[i] == Poll::Ready(Some(s.items[i])),
    decreases n,
{
    if n > 0 {
        lemma_recv_closed_prefix(s, (n - 1) as nat, waiter);
        let (s1, rs) = recv_n(s, (n - 1) as nat, waiter);
        assert(s1.items[0] == s.items[n - 1]);
        assert(s1.items.drop_first() =~= s.items.skip(n as int));
        assert forall|i: int| 0 <= i < n implies #[trigger] recv_n(s, n, waiter).1[i] == Poll::Ready(
            Some(s.items[i]),
        ) by {
            if i < n - 1 {
                assert(recv_n(s, n, waiter).1[i] == rs[i]);
            }
        }
    }
}

/// Once a channel is closed its receiver never suspends: it yields the
/// queued messages in order, then `None`.
pub proof fn lemma_closed_channel_drains<T>(s: ChannelState<T>, waiter: u64)
    requires
        s.closed,
    ensures
        forall|i: int|
            0 <= i < s.items.len() ==> #[trigger] recv_n(s, s.items.len() + 1, waiter).1[i] == Poll::Ready(
                Some(s.items[i]),
            ),
        recv_n(s, s.items.len() + 1, waiter).1[s.items.len() as int] == Poll::<Option<T>>::Ready(None),
        forall|n: nat, i: int| 0 <= i < n ==> !(#[trigger] recv_n(s, n, waiter).1[i] is Suspended),
{
    let len = s.items.len();
    lemma_recv_closed_prefix(s, len, waiter);
    let rs = recv_n(s, len, waiter).1;
    assert(recv_n(s, len, waiter).0.items =~= Seq::<T>::empty());
    assert forall|i: int| 0 <= i < len implies #[trigger] recv_n(s, len + 1, waiter).1[i] == Poll::Ready(
        Some(s.items[i]),
    ) by {
        assert(recv_n(s, len + 1, waiter).1[i] == rs[i]);
    }
    assert forall|n: nat, i: int| 0 <= i < n implies !(#[trigger] recv_n(s, n, waiter).1[i] is Suspended) by {
        lemma_closed_never_suspends(s, n, waiter);
    }
}

proof fn lemma_closed_never_suspends<T>(s: ChannelState<T>, n: nat, waiter: u64)
    requires
        s.closed,
    ensures
        recv_n(s, n, waiter).0.closed,
        recv_n(s, n, waiter).1.len() == n,
        forall|i: int| 0 <= i < n ==> !(#[trigger] recv_n(s, n, waiter).1[i] is Suspended),
    decreases n,
{
    if n > 0 {
        lemma_closed_never_suspends(s, (n - 1) as nat, waiter);
        let rs = recv_n(s, (n - 1) as nat, waiter).1;
        assert forall|i: int| 0 <= i < n implies !(#[trigger] recv_n(s, n, waiter).1[i] is Suspended) by {
            if i < n - 1 {
                assert(recv_n(s, n, waiter).1[i] == rs[i]);
            }
        }
    }
}

} // verus!
