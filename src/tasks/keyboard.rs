use vstd::prelude::*;
use crossbeam::queue::ArrayQueue;
use super::Poll;
use super::waker::AtomicWaker;
use super::queue::{byte_queue_bound, byte_queue_new, byte_queue_pop, byte_queue_push, queued_bytes};

verus! {

/// How many scancodes wait at most for the keyboard task.
pub const SCANCODE_QUEUE_CAPACITY: usize = 100;

/// The scancodes delivered by the keyboard interrupt, oldest first, and
/// the continuation of the task waiting for the next one.
pub struct ScanCodeStream {
    queue: ArrayQueue<u8>,
    waker: AtomicWaker,
}

impl ScanCodeStream {
    pub closed spec fn pending(&self) -> Seq<u8> {
        queued_bytes(self.queue)
    }

    pub closed spec fn spec_waiter(&self) -> Option<u64> {
        self.waker@
    }

    pub closed spec fn wf(&self) -> bool {
        byte_queue_bound(self.queue) == SCANCODE_QUEUE_CAPACITY
    }

    pub fn new() -> (r: ScanCodeStream)
        ensures
            r.wf(),
            r.pending() == Seq::<u8>::empty(),
            r.spec_waiter() == None::<u64>,
    {
        ScanCodeStream { queue: byte_queue_new(SCANCODE_QUEUE_CAPACITY), waker: AtomicWaker::new() }
    }

    /// Called from the keyboard interrupt: queues `scancode` and invokes the
    /// waiting task's continuation, returning that task to be scheduled; a
    /// full queue drops the scancode, handing it back.
    pub fn add_scancode(&mut self, scancode: u8) -> (r: Result<Option<u64>, u8>)
        requires
            old(self).wf(),
        ensures
            final(self).wf(),
            r is Ok <==> old(self).pending().len() < SCANCODE_QUEUE_CAPACITY,
            r is Ok ==> final(self).pending() == old(self).pending().push(scancode) && r->Ok_0
                == old(self).spec_waiter() && final(self).spec_waiter() == None::<u64>,
            r is Err ==> r->Err_0 == scancode && final(self).pending() == old(self).pending()
                && final(self).spec_waiter() == old(self).spec_waiter(),
    {
        match byte_queue_push(&mut self.queue, scancode) {
            Ok(()) => Ok(self.waker.wake()),
            Err(code) => Err(code),
        }
    }

    /// The oldest scancode; when there is none, `waiter` registers its
    /// continuation and suspends until the next one arrives.
    pub fn poll_next(&mut self, waiter: u64) -> (r: Poll<Option<u8>>)
        requires
            old(self).wf(),
        ensures
            final(self).wf(),
            old(self).pending().len() > 0 ==> r == Poll::Ready(Some(old(self).pending()[0]))
                && final(self).pending() == old(self).pending().drop_first(),
            old(self).pending().len() == 0 ==> r is Suspended && final(self).pending() == old(self).pending() && final(self).spec_waiter() == Some(waiter),
    {
        match byte_queue_pop(&mut self.queue) {
            Some(code) => Poll::Ready(Some(code)),
            None => {
                self.waker.register(waiter);
                Poll::Suspended
            },
        }
    }
}

} // verus!
