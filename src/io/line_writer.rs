use vstd::prelude::*;
use super::buf_read::{position_of, NEWLINE};
use super::buf_writer::{BufWriter, IntoInnerError};
use super::error::IoResult;
use super::write::Write;

verus! {

/// Default buffer size of a `LineWriter`.
pub const LINE_WRITER_CAPACITY: usize = 1024;

/// A buffered writer that flushes whenever a complete line is buffered.
#[derive(Debug)]
pub struct LineWriter<W: Write> {
    inner: BufWriter<W>,
}

impl<W: Write> LineWriter<W> {
    pub closed spec fn spec_inner(&self) -> W {
        self.inner.spec_inner()
    }

    pub closed spec fn buffered(&self) -> Seq<u8> {
        self.inner.buffered()
    }

    pub closed spec fn spec_capacity(&self) -> nat {
        self.inner.spec_capacity()
    }

    /// The size of the line buffer.
    pub fn capacity(&self) -> (r: usize)
        ensures
            r == self.spec_capacity(),
    {
        self.inner.capacity()
    }

    pub fn new(inner: W) -> (r: LineWriter<W>)
        ensures
            r.spec_inner() == inner,
            r.spec_capacity() == LINE_WRITER_CAPACITY,
            r.buffered() == Seq::<u8>::empty(),
    {
        LineWriter::with_capacity(LINE_WRITER_CAPACITY, inner)
    }

    pub fn with_capacity(capacity: usize, inner: W) -> (r: LineWriter<W>)
        ensures
            r.spec_inner() == inner,
            r.spec_capacity() == capacity,
            r.buffered() == Seq::<u8>::empty(),
    {
        LineWriter { inner: BufWriter::with_capacity(capacity, inner) }
    }

    pub fn get_ref(&self) -> (r: &W)
        ensures
            *r == self.spec_inner(),
    {
        self.inner.get_ref()
    }

    pub fn get_mut(&mut self) -> (r: &mut W)
        ensures
            *r == old(self).spec_inner(),
            final(self).spec_inner() == *final(r),
            final(self).buffered() == old(self).buffered(),
    {
        self.inner.get_mut()
    }

    /// Flushes and returns the inner writer; on an error the line writer is
    /// handed back with it.
    pub fn into_inner(self) -> (r: Result<W, IntoInnerError<LineWriter<W>>>)
        ensures
            self.buffered().len() == 0 ==> r is Ok,
    {
        match self.inner.into_inner() {
            Ok(w) => Ok(w),
            Err(err) => Err(err.new_wrapped(|inner: BufWriter<W>| LineWriter { inner })),
        }
    }
}

impl<W: Write> Write for LineWriter<W> {
    /// Writes through the buffer, then flushes if a newline is buffered.
    fn write(&mut self, data: &[u8]) -> (r: IoResult<usize>) {
        let n = self.inner.write(data)?;
        let newline = position_of(self.inner.buffer(), NEWLINE);
        if newline.is_some() {
            self.inner.flush()?;
        }
        Ok(n)
    }

    fn flush(&mut self) -> (r: IoResult<()>)
        ensures
            r is Ok ==> final(self).buffered() == Seq::<u8>::empty(),
    {
        self.inner.flush()
    }
}

} // verus!
