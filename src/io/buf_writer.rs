use vstd::prelude::*;
use super::error::{Error, IoResult};
use super::write::{extend_from, write_all, Write};
use super::DEFAULT_BUF_CAPACITY;

verus! {

/// Collects small writes in a buffer and hands them to the inner writer
/// in larger pieces.
#[derive(Debug)]
pub struct BufWriter<W> {
    inner: W,
    buffer: Vec<u8>,
    capacity: usize,
}

impl<W: Write> BufWriter<W> {
    pub fn new(inner: W) -> (r: BufWriter<W>)
        ensures
            r.spec_inner() == inner,
            r.spec_capacity() == DEFAULT_BUF_CAPACITY,
            r.buffered() == Seq::<u8>::empty(),
    {
        BufWriter::with_capacity(DEFAULT_BUF_CAPACITY, inner)
    }

    pub fn with_capacity(capacity: usize, inner: W) -> (r: BufWriter<W>)
        ensures
            r.spec_inner() == inner,
            r.spec_capacity() == capacity,
            r.buffered() == Seq::<u8>::empty(),
    {
        BufWriter { inner, buffer: Vec::with_capacity(capacity), capacity }
    }

    /// Hands the buffered bytes to the inner writer and empties the buffer;
    /// on an error the buffer is kept.
    fn flush_buffer(&mut self) -> (r: IoResult<()>)
        ensures
            r is Ok ==> final(self).buffered() == Seq::<u8>::empty(),
            r is Err ==> final(self).buffered() == old(self).buffered(),
            old(self).buffered().len() == 0 ==> r is Ok && final(self).spec_inner() == old(self).spec_inner(),
            final(self).spec_capacity() == old(self).spec_capacity(),
    {
        write_all(&mut self.inner, self.buffer.as_slice())?;
        self.buffer.clear();
        Ok(())
    }

    /// Flushes the buffer and returns the inner writer; on an error the
    /// writer is handed back with it.
    pub fn into_inner(self) -> (r: Result<W, IntoInnerError<BufWriter<W>>>)
        ensures
            self.buffered().len() == 0 ==> r == Ok::<W, IntoInnerError<BufWriter<W>>>(
                self.spec_inner(),
            ),
            r is Err ==> r->Err_0.spec_writer().buffered() == self.buffered()
                && r->Err_0.spec_writer().spec_capacity() == self.spec_capacity(),
    {
        let mut this = self;
        match this.flush_buffer() {
            Ok(()) => Ok(this.inner),
            Err(err) => Err(IntoInnerError::new(this, err)),
        }
    }

    /// Writes all of `data`: through the buffer when it fits, else
    /// straight to the inner writer after flushing.
    pub fn write_all(&mut self, data: &[u8]) -> (r: IoResult<()>)
        ensures
            old(self).buffered().len() + data@.len() <= old(self).spec_capacity() && data@.len()
                < old(self).spec_capacity() ==> r is Ok && final(self).buffered() == old(self).buffered() + data@ && final(self).spec_inner() == old(self).spec_inner(),
    {
        if self.buffer.len() > self.capacity || data.len() > self.capacity - self.buffer.len() {
            self.flush_buffer()?;
        }
        if data.len() >= self.capacity {
            write_all(&mut self.inner, data)
        } else {
            extend_from(&mut self.buffer, data);
            Ok(())
        }
    }
}

impl<W> BufWriter<W> {
    pub closed spec fn spec_inner(&self) -> W {
        self.inner
    }

    pub closed spec fn spec_capacity(&self) -> nat {
        self.capacity as nat
    }

    /// The bytes written and not yet handed to the inner writer.
    pub closed spec fn buffered(&self) -> Seq<u8> {
        self.buffer@
    }

    pub fn get_ref(&self) -> (r: &W)
        ensures
            *r == self.spec_inner(),
    {
        &self.inner
    }

    pub fn get_mut(&mut self) -> (r: &mut W)
        ensures
            *r == old(self).spec_inner(),
            final(self).spec_inner() == *final(r),
            final(self).buffered() == old(self).buffered(),
            final(self).spec_capacity() == old(self).spec_capacity(),
    {
        &mut self.inner
    }

    pub fn buffer(&self) -> (r: &[u8])
        ensures
            r@ == self.buffered(),
    {
        self.buffer.as_slice()
    }

    pub fn capacity(&self) -> (r: usize)
        ensures
            r == self.spec_capacity(),
    {
        self.capacity
    }
}

impl<W: Write> Write for BufWriter<W> {
    /// Buffers `data` when it fits with what is buffered; otherwise flushes
    /// first, and writes a piece as large as the buffer straight through.
    fn write(&mut self, data: &[u8]) -> (r: IoResult<usize>)
        ensures
            old(self).buffered().len() + data@.len() <= old(self).spec_capacity() && data@.len()
                < old(self).spec_capacity() ==> r is Ok && r->Ok_0 == data@.len() && final(self).buffered() == old(self).buffered() + data@ && final(self).spec_inner() == old(self).spec_inner(),
            final(self).spec_capacity() == old(self).spec_capacity(),
    {
        if self.buffer.len() > self.capacity || data.len() > self.capacity - self.buffer.len() {
            self.flush_buffer()?;
        }
        if data.len() >= self.capacity {
            self.inner.write(data)
        } else {
            extend_from(&mut self.buffer, data);
            Ok(data.len())
        }
    }

    /// Hands the buffered bytes to the inner writer.
    fn flush(&mut self) -> (r: IoResult<()>)
        ensures
            r is Ok ==> final(self).buffered() == Seq::<u8>::empty(),
            final(self).spec_capacity() == old(self).spec_capacity(),
    {
        self.flush_buffer()
    }
}

/// A writer handed back with the error that stopped it from being flushed.
#[derive(Debug)]
pub struct IntoInnerError<W>(W, Error);

impl<W> IntoInnerError<W> {
    pub closed spec fn spec_writer(&self) -> W {
        self.0
    }

    pub closed spec fn spec_error(&self) -> Error {
        self.1
    }

    pub fn new(writer: W, error: Error) -> (r: IntoInnerError<W>)
        ensures
            r.spec_writer() == writer,
            r.spec_error() == error,
    {
        IntoInnerError(writer, error)
    }

    /// The same error with the writer mapped through `f`.
    pub fn new_wrapped<W2, F: FnOnce(W) -> W2>(self, f: F) -> (r: IntoInnerError<W2>)
        requires
            f.requires((self.spec_writer(),)),
        ensures
            f.ensures((self.spec_writer(),), r.spec_writer()),
            r.spec_error() == self.spec_error(),
    {
        let IntoInnerError(writer, error) = self;
        IntoInnerError::new(f(writer), error)
    }

    pub fn error(&self) -> (r: &Error)
        ensures
            *r == self.spec_error(),
    {
        &self.1
    }

    pub fn into_inner(self) -> (r: W)
        ensures
            r == self.spec_writer(),
    {
        self.0
    }

    pub fn into_error(self) -> (r: Error)
        ensures
            r == self.spec_error(),
    {
        self.1
    }
}

} // verus!
