use vstd::prelude::*;
use crate::tasks::Poll;

verus! {

/// `try_lock` found the mutex held.
#[derive(Clone, Copy, Debug, PartialEq, Eq, Structural)]
pub enum TryLockError {
    Locked,
}

impl TryLockError {
    pub fn message(&self) -> (r: &'static str)
        ensures
            r@ == "mutex was locked"@,
    {
        "mutex was locked"
    }
}

/// The abstract state of a mutex: the locked flag and the wait list.
pub struct MutexState {
    pub locked: bool,
    pub waiters: Seq<u64>,
}

/// What an acquire attempt does: it succeeds exactly when the flag is clear.
pub open spec fn try_lock_spec(s: MutexState) -> (MutexState, bool) {
    if s.locked {
        (s, false)
    } else {
        (MutexState { locked: true, ..s }, true)
    }
}

/// The wait list without `waiter`.
pub open spec fn without(waiters: Seq<u64>, waiter: u64) -> Seq<u64> {
    waiters.filter(|w: u64| w != waiter)
}

/// What a waiting acquire does: when the flag is clear it takes the lock and
/// leaves the wait list; otherwise it puts `waiter` on the wait list (once)
/// and suspends.
pub open spec fn lock_spec(s: MutexState, waiter: u64) -> (MutexState, bool) {
    if s.locked {
        if s.waiters.contains(waiter) {
            (s, false)
        } else {
            (MutexState { waiters: s.waiters.push(waiter), ..s }, false)
        }
    } else {
        (MutexState { locked: true, waiters: without(s.waiters, waiter) }, true)
    }
}

/// What a release does: it clears the flag and takes the oldest waiter off
/// the wait list, to be woken.
pub open spec fn unlock_spec(s: MutexState) -> (MutexState, Option<u64>) {
    if s.waiters.len() > 0 {
        (MutexState { locked: false, waiters: s.waiters.drop_first() }, Some(s.waiters[0]))
    } else {
        (MutexState { locked: false, ..s }, None)
    }
}

/// Source of mutex keys: each mutex made from one counter has its own key,
/// which ties its guards to it.
pub struct MutexKeys {
    next: u64,
}

impl MutexKeys {
    pub closed spec fn next_key(&self) -> u64 {
        self.next
    }

    pub fn new() -> (r: MutexKeys)
        ensures
            r.next_key() == 0,
    {
        MutexKeys { next: 0 }
    }
}

/// Proof of holding a mutex: handed out by a successful acquire and given
/// back on release. It carries the key of the mutex it holds.
#[derive(Debug)]
pub struct MutexGuard {
    key: u64,
}

impl MutexGuard {
    pub closed spec fn spec_key(&self) -> u64 {
        self.key
    }

    /// The key of the mutex this guard holds.
    pub fn key(&self) -> (r: u64)
        ensures
            r == self.spec_key(),
    {
        self.key
    }
}

/// A non-blocking mutex: its key, one flag, a wait list, and the payload.
pub struct Mutex<T> {
    key: u64,
    locked: bool,
    // A `Vec`: a waiter that takes the lock directly leaves the list from
    // wherever it stands, which a first-in, first-out queue cannot do.
    waiters: Vec<u64>,
    data: T,
}

impl<T> Mutex<T> {
    pub closed spec fn spec_key(&self) -> u64 {
        self.key
    }

    pub fn key(&self) -> (r: u64)
        ensures
            r == self.spec_key(),
    {
        self.key
    }

    pub closed spec fn view(&self) -> MutexState {
        MutexState { locked: self.locked, waiters: self.waiters@ }
    }

    pub closed spec fn spec_data(&self) -> T {
        self.data
    }

    /// An unlocked mutex holding `t`, with the next key of `keys`.
    pub fn new(keys: &mut MutexKeys, t: T) -> (r: Mutex<T>)
        requires
            old(keys).next_key() < u64::MAX,
        ensures
            r@ == (MutexState { locked: false, waiters: Seq::empty() }),
            r.spec_data() == t,
            r.spec_key() == old(keys).next_key(),
            final(keys).next_key() == old(keys).next_key() + 1,
    {
        let key = keys.next;
        keys.next = keys.next + 1;
        Mutex { key, locked: false, waiters: Vec::new(), data: t }
    }

    pub fn is_locked(&self) -> (r: bool)
        ensures
            r == self@.locked,
    {
        self.locked
    }

    /// One attempt to take the lock.
    pub fn try_lock(&mut self) -> (r: Result<MutexGuard, TryLockError>)
        ensures
            (final(self)@, r is Ok) == try_lock_spec(old(self)@),
            r is Err ==> r == Err::<MutexGuard, TryLockError>(TryLockError::Locked),
            r is Ok ==> r->Ok_0.spec_key() == old(self).spec_key(),
            final(self).spec_data() == old(self).spec_data(),
            final(self).spec_key() == old(self).spec_key(),
    {
        if self.locked {
            Err(TryLockError::Locked)
        } else {
            self.locked = true;
            Ok(MutexGuard { key: self.key })
        }
    }

    /// One poll of a waiting acquire on behalf of `waiter`: the guard when
    /// the lock is free, else the waiter is listed to be woken on release.
    pub fn poll_lock(&mut self, waiter: u64) -> (r: Poll<MutexGuard>)
        ensures
            (final(self)@, r is Ready) == lock_spec(old(self)@, waiter),
            r is Ready ==> r->Ready_0.spec_key() == old(self).spec_key(),
            final(self).spec_data() == old(self).spec_data(),
            final(self).spec_key() == old(self).spec_key(),
    {
        if !self.locked {
            self.locked = true;
            self.leave_wait_list(waiter);
            return Poll::Ready(MutexGuard { key: self.key });
        }
        let mut i: usize = 0;
        while i < self.waiters.len()
            invariant
                0 <= i <= self.waiters@.len(),
                self.waiters@ == old(self).waiters@,
                self.locked,
                old(self).locked,
                self.data == old(self).data,
                self.key == old(self).key,
                forall|j: int| 0 <= j < i ==> self.waiters@[j] != waiter,
            decreases self.waiters@.len() - i,
        {
            if self.waiters[i] == waiter {
                proof {
                    assert(self.waiters@[i as int] == waiter);
                }
                return Poll::Suspended;
            }
            i = i + 1;
        }
        self.waiters.push(waiter);
        Poll::Suspended
    }

    /// Takes `waiter` off the wait list.
    fn leave_wait_list(&mut self, waiter: u64)
        ensures
            final(self).waiters@ == without(old(self).waiters@, waiter),
            final(self).locked == old(self).locked,
            final(self).data == old(self).data,
            final(self).key == old(self).key,
    {
        let mut kept: Vec<u64> = Vec::new();
        let mut i: usize = 0;
        while i < self.waiters.len()
            invariant
                0 <= i <= self.waiters@.len(),
                self.waiters@ == old(self).waiters@,
                self.locked == old(self).locked,
                self.data == old(self).data,
                self.key == old(self).key,
                kept@ == without(self.waiters@.take(i as int), waiter),
            decreases self.waiters@.len() - i,
        {
            let w = self.waiters[i];
            proof {
                let s = self.waiters@.take(i as int + 1);
                assert(s.drop_last() =~= self.waiters@.take(i as int));
                assert(s.last() == w);
                reveal(Seq::filter);
            }
            if w != waiter {
                kept.push(w);
            }
            i = i + 1;
        }
        proof {
            assert(self.waiters@.take(i as int) =~= self.waiters@);
        }
        self.waiters = kept;
    }

    /// Releases the lock held through `guard`, a guard of this mutex,
    /// returning the oldest waiter, which the caller wakes.
    pub fn unlock(&mut self, guard: MutexGuard) -> (r: Option<u64>)
        requires
            guard.spec_key() == old(self).spec_key(),
        ensures
            (final(self)@, r) == unlock_spec(old(self)@),
            final(self).spec_data() == old(self).spec_data(),
            final(self).spec_key() == old(self).spec_key(),
    {
        self.locked = false;
        if self.waiters.len() > 0 {
            Some(self.waiters.remove(0))
        } else {
            None
        }
    }

    /// The payload, read through the guard that holds the lock.
    pub fn get<'a>(&'a self, guard: &'a MutexGuard) -> (r: &'a T)
        requires
            guard.spec_key() == self.spec_key(),
        ensures
            *r == self.spec_data(),
    {
        &self.data
    }

    /// The payload, for writing, through the guard that holds the lock.
    pub fn get_with_guard<'a>(&'a mut self, guard: &'a MutexGuard) -> (r: &'a mut T)
        requires
            guard.spec_key() == old(self).spec_key(),
        ensures
            *r == old(self).spec_data(),
            final(self)@ == old(self)@,
            final(self).spec_key() == old(self).spec_key(),
            final(self).spec_data() == *final(r),
    {
        &mut self.data
    }

    /// The payload, through exclusive access to the mutex itself.
    pub fn get_mut(&mut self) -> (r: &mut T)
        ensures
            *r == old(self).spec_data(),
            final(self)@ == old(self)@,
            final(self).spec_key() == old(self).spec_key(),
            final(self).spec_data() == *final(r),
    {
        &mut self.data
    }

    pub fn into_inner(self) -> (r: T)
        ensures
            r == self.spec_data(),
    {
        self.data
    }
}

impl<T> Mutex<T> {
    /// A waiting acquire of this mutex on behalf of task `waiter`.
    pub fn lock(&self, waiter: u64) -> (r: Lock)
        ensures
            r.spec_key() == self.spec_key(),
            r.spec_waiter() == waiter,
    {
        Lock { key: self.key, waiter }
    }
}

/// A waiting acquire: polled until it yields the guard.
#[derive(Clone, Copy, Debug)]
pub struct Lock {
    key: u64,
    waiter: u64,
}

impl Lock {
    pub closed spec fn spec_key(&self) -> u64 {
        self.key
    }

    pub closed spec fn spec_waiter(&self) -> u64 {
        self.waiter
    }

    /// The key of the mutex this acquire is for.
    pub fn key(&self) -> (r: u64)
        ensures
            r == self.spec_key(),
    {
        self.key
    }

    /// One poll of the acquire on its own mutex `m`.
    pub fn poll<T>(&self, m: &mut Mutex<T>) -> (r: Poll<MutexGuard>)
        requires
            old(m).spec_key() == self.spec_key(),
        ensures
            (final(m)@, r is Ready) == lock_spec(old(m)@, self.spec_waiter()),
            r is Ready ==> r->Ready_0.spec_key() == old(m).spec_key(),
            final(m).spec_data() == old(m).spec_data(),
            final(m).spec_key() == old(m).spec_key(),
    {
        m.poll_lock(self.waiter)
    }
}

/// An operation on a mutex, as a caller performs it.
pub enum MutexOp {
    TryLock,
    Lock(u64),
    Release,
}

/// The mutex state and the number of live guards of this mutex after
/// `ops`, starting from `s` with `live` guards. A release needs a guard of
/// this mutex (`unlock` requires its key); without a live one it cannot be
/// performed and changes nothing.
pub open spec fn run_ops(s: MutexState, live: nat, ops: Seq<MutexOp>) -> (MutexState, nat)
    decreases ops.len(),
{
    if ops.len() == 0 {
        (s, live)
    } else {
        let (s1, l1) = run_ops(s, live, ops.drop_last());
        match ops.last() {
            MutexOp::TryLock => {
                let (s2, ok) = try_lock_spec(s1);
                (s2, if ok { l1 + 1 } else { l1 })
            },
            MutexOp::Lock(w) => {
                let (s2, ok) = lock_spec(s1, w);
                (s2, if ok { l1 + 1 } else { l1 })
            },
            MutexOp::Release => if l1 > 0 {
                (unlock_spec(s1).0, (l1 - 1) as nat)
            } else {
                (s1, l1)
            },
        }
    }
}

/// Starting unlocked with no guard, after any sequence of acquires and
/// releases at most one guard is live, and exactly when the flag is set;
/// and after a release the next acquire attempt succeeds.
pub proof fn lemma_mutex_exclusion(s: MutexState, ops: Seq<MutexOp>)
    requires
        !s.locked,
    ensures
        run_ops(s, 0, ops).1 <= 1,
        run_ops(s, 0, ops).0.locked <==> run_ops(s, 0, ops).1 == 1,
        ops.len() > 0 && ops.last() is Release ==> try_lock_spec(run_ops(s, 0, ops).0).1,
    decreases ops.len(),
{
    if ops.len() > 0 {
        lemma_mutex_exclusion(s, ops.drop_last());
    }
}

/// A release with waiters wakes the one that waited longest, and that
/// waiter's next attempt takes the lock, unless another acquire comes first.
pub proof fn lemma_release_wakes_oldest_waiter(s: MutexState)
    requires
        s.locked,
        s.waiters.len() > 0,
    ensures
        unlock_spec(s).1 == Some(s.waiters[0]),
        !unlock_spec(s).0.locked,
        lock_spec(unlock_spec(s).0, s.waiters[0]).1,
{
}

} // verus!
