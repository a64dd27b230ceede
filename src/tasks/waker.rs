use vstd::prelude::*;

verus! {

/// Single-slot continuation cell: it holds the continuation registered last
/// (the task to schedule) until that continuation is invoked or taken back.
#[derive(Debug)]
pub struct AtomicWaker {
    slot: Option<u64>,
}

impl AtomicWaker {
    pub closed spec fn view(&self) -> Option<u64> {
        self.slot
    }

    pub fn new() -> (r: AtomicWaker)
        ensures
            r@ == None::<u64>,
    {
        AtomicWaker { slot: None }
    }

    /// The registered continuation, left in place.
    pub fn view_exec(&self) -> (r: Option<u64>)
        ensures
            r == self@,
    {
        self.slot
    }

    /// Registers the continuation of `task`, replacing any earlier one.
    pub fn register(&mut self, task: u64)
        ensures
            final(self)@ == Some(task),
    {
        self.slot = Some(task);
    }

    /// Takes the registered continuation back without invoking it.
    pub fn take(&mut self) -> (r: Option<u64>)
        ensures
            r == old(self)@,
            final(self)@ == None::<u64>,
    {
        let r = self.slot;
        self.slot = None;
        r
    }

    /// Invokes the registered continuation, if any: the cell empties and the
    /// task returned is the one to schedule.
    pub fn wake(&mut self) -> (r: Option<u64>)
        ensures
            r == old(self)@,
            final(self)@ == None::<u64>,
    {
        self.take()
    }
}

} // verus!
