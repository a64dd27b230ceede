use vstd::prelude::*;
use vstd::slice::slice_subrange;
use super::buf_read::BufRead;
use super::error::IoResult;
use super::read::{copy_into, Read};

verus! {

/// A reader that yields at most `limit` bytes of another.
#[derive(Debug)]
pub struct Take<R> {
    inner: R,
    limit: u64,
}

impl<R> Take<R> {
    pub closed spec fn spec_inner(&self) -> R {
        self.inner
    }

    pub closed spec fn spec_limit(&self) -> u64 {
        self.limit
    }

    pub fn new(inner: R, limit: u64) -> (r: Take<R>)
        ensures
            r.spec_inner() == inner,
            r.spec_limit() == limit,
    {
        Take { inner, limit }
    }

    /// How many bytes may still be read.
    pub fn limit(&self) -> (r: u64)
        ensures
            r == self.spec_limit(),
    {
        self.limit
    }

    pub fn into_inner(self) -> (r: R)
        ensures
            r == self.spec_inner(),
    {
        self.inner
    }

    pub fn get_ref(&self) -> (r: &R)
        ensures
            *r == self.spec_inner(),
    {
        &self.inner
    }
}

impl<R: Read> Read for Take<R> {
    /// Reads into at most `limit` bytes of `buf`; the limit shrinks by the
    /// number read.
    fn read(&mut self, buf: &mut [u8]) -> (r: IoResult<usize>)
        ensures
            old(self).spec_limit() == 0 ==> r is Ok && r->Ok_0 == 0 && final(buf)@ == old(buf)@,
            r is Ok ==> r->Ok_0 <= old(self).spec_limit() && final(self).spec_limit()
                == old(self).spec_limit() - r->Ok_0,
            r is Err ==> final(self).spec_limit() == old(self).spec_limit(),
    {
        if self.limit == 0 {
            return Ok(0);
        }
        let len: usize = if self.limit < buf.len() as u64 {
            self.limit as usize
        } else {
            buf.len()
        };
        let mut tmp = vec![0u8; len];
        match self.inner.read(tmp.as_mut_slice()) {
            Ok(n) => {
                copy_into(buf, 0, slice_subrange(tmp.as_slice(), 0, n));
                self.limit = self.limit - n as u64;
                Ok(n)
            },
            Err(err) => Err(err),
        }
    }
}

impl<R: BufRead> BufRead for Take<R> {
    /// The inner reader's buffered bytes, cut to the limit.
    fn fill_buf(&mut self) -> (r: IoResult<&[u8]>)
        ensures
            r is Ok ==> r->Ok_0@.len() <= old(self).spec_limit(),
            final(self).spec_limit() == old(self).spec_limit(),
    {
        if self.limit == 0 {
            let e: &[u8] = &[];
            return Ok(e);
        }
        let limit = self.limit;
        match self.inner.fill_buf() {
            Ok(buf) => {
                let len: usize = if limit < buf.len() as u64 {
                    limit as usize
                } else {
                    buf.len()
                };
                Ok(slice_subrange(buf, 0, len))
            },
            Err(err) => Err(err),
        }
    }

    /// Consumes `amt` bytes, but no more than the limit.
    fn consume(&mut self, amt: usize) {
        let len: usize = if self.limit < amt as u64 {
            self.limit as usize
        } else {
            amt
        };
        self.limit = self.limit - len as u64;
        self.inner.consume(len);
    }
}

} // verus!
