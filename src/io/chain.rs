use vstd::prelude::*;
use super::buf_read::BufRead;
use super::error::IoResult;
use super::read::Read;

verus! {

/// Two readers one after the other: the second is read once the first is
/// at its end.
#[derive(Debug)]
pub struct Chain<A, B> {
    first: A,
    second: B,
    done_first: bool,
}

impl<A, B> Chain<A, B> {
    pub closed spec fn spec_first(&self) -> A {
        self.first
    }

    pub closed spec fn spec_second(&self) -> B {
        self.second
    }

    pub closed spec fn spec_done_first(&self) -> bool {
        self.done_first
    }

    pub fn new(first: A, second: B) -> (r: Chain<A, B>)
        ensures
            r.spec_first() == first,
            r.spec_second() == second,
            !r.spec_done_first(),
    {
        Chain { first, second, done_first: false }
    }

    pub fn into_inner(self) -> (r: (A, B))
        ensures
            r == (self.spec_first(), self.spec_second()),
    {
        (self.first, self.second)
    }

    pub fn get_ref(&self) -> (r: (&A, &B))
        ensures
            *r.0 == self.spec_first(),
            *r.1 == self.spec_second(),
    {
        (&self.first, &self.second)
    }

    pub fn get_mut(&mut self) -> (r: (&mut A, &mut B))
        ensures
            *r.0 == old(self).spec_first(),
            *r.1 == old(self).spec_second(),
            final(self).spec_first() == *final(r.0),
            final(self).spec_second() == *final(r.1),
            final(self).spec_done_first() == old(self).spec_done_first(),
    {
        (&mut self.first, &mut self.second)
    }
}

impl<A: Read, B: Read> Read for Chain<A, B> {
    /// Reads from the first reader until it reports its end, then from the
    /// second.
    fn read(&mut self, buf: &mut [u8]) -> (r: IoResult<usize>)
        ensures
            old(self).spec_done_first() ==> final(self).spec_done_first(),
    {
        if !self.done_first {
            match self.first.read(buf) {
                Ok(0) => {
                    self.done_first = true;
                },
                Ok(n) => {
                    return Ok(n);
                },
                Err(err) => {
                    return Err(err);
                },
            }
        }
        self.second.read(buf)
    }
}

impl<A: BufRead, B: BufRead> BufRead for Chain<A, B> {
    fn fill_buf(&mut self) -> (r: IoResult<&[u8]>) {
        if !self.done_first {
            match self.first.fill_buf() {
                Ok(buf) => {
                    if buf.len() > 0 {
                        return Ok(buf);
                    }
                },
                Err(err) => {
                    return Err(err);
                },
            }
            self.done_first = true;
        }
        self.second.fill_buf()
    }

    fn consume(&mut self, amt: usize) {
        if !self.done_first {
            self.first.consume(amt)
        } else {
            self.second.consume(amt)
        }
    }
}

} // verus!
