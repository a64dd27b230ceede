use vstd::prelude::*;
use vstd::slice::slice_subrange;
use super::buf_read::BufRead;
use super::error::{Error, ErrorKind, IoResult};
use super::read::{copy_into, Read};
use super::seek::{Seek, SeekFrom};

verus! {

/// Default buffer size of a `BufReader`.
pub const BUF_READER_CAPACITY: usize = 4096;

/// A read buffer: the bytes `buffer[pos..cap]` have been read from the
/// source and not yet consumed.
pub struct ReadBuffer {
    buffer: Vec<u8>,
    pos: usize,
    cap: usize,
}

impl ReadBuffer {
    #[verifier::type_invariant]
    spec fn inv(&self) -> bool {
        self.pos <= self.cap <= self.buffer@.len()
    }

    pub closed spec fn spec_capacity(&self) -> nat {
        self.buffer@.len()
    }

    /// The bytes read from the source and not yet consumed.
    pub closed spec fn buffered(&self) -> Seq<u8> {
        self.buffer@.subrange(self.pos as int, self.cap as int)
    }

    pub fn new(capacity: usize) -> (r: ReadBuffer)
        ensures
            r.spec_capacity() == capacity,
            r.buffered() == Seq::<u8>::empty(),
    {
        ReadBuffer { buffer: vec![0u8; capacity], pos: 0, cap: 0 }
    }

    pub fn capacity(&self) -> (r: usize)
        ensures
            r == self.spec_capacity(),
    {
        self.buffer.len()
    }

    pub fn available(&self) -> (r: usize)
        ensures
            r == self.buffered().len(),
    {
        proof {
            use_type_invariant(self);
        }
        self.cap - self.pos
    }

    pub fn bytes(&self) -> (r: &[u8])
        ensures
            r@ == self.buffered(),
            r@.len() <= self.spec_capacity(),
    {
        proof {
            use_type_invariant(self);
        }
        slice_subrange(self.buffer.as_slice(), self.pos, self.cap)
    }

    pub fn discard(&mut self)
        ensures
            final(self).buffered() == Seq::<u8>::empty(),
            final(self).spec_capacity() == old(self).spec_capacity(),
    {
        proof {
            use_type_invariant(&*self);
        }
        self.pos = 0;
        self.cap = 0;
    }

    /// Marks up to `amt` buffered bytes as read; all of them if `amt` is
    /// larger.
    pub fn consume(&mut self, amt: usize)
        ensures
            final(self).buffered() == if amt < old(self).buffered().len() {
                old(self).buffered().skip(amt as int)
            } else {
                Seq::<u8>::empty()
            },
            final(self).spec_capacity() == old(self).spec_capacity(),
    {
        proof {
            use_type_invariant(&*self);
        }
        let available = self.cap - self.pos;
        if amt < available {
            self.pos = self.pos + amt;
            proof {
                assert(self.buffered() =~= old(self).buffered().skip(amt as int));
            }
        } else {
            self.discard();
        }
    }

    /// An empty buffer of no capacity, to stand in while the real one is
    /// being refilled.
    pub fn placeholder() -> (r: ReadBuffer)
        ensures
            r.spec_capacity() == 0,
            r.buffered() == Seq::<u8>::empty(),
    {
        ReadBuffer { buffer: Vec::new(), pos: 0, cap: 0 }
    }

    /// When nothing is buffered, refills the buffer with one read of
    /// `source`. The buffer is taken and handed back.
    pub fn refill<R: Read>(self, source: &mut R) -> (r: (ReadBuffer, IoResult<()>))
        ensures
            r.0.spec_capacity() == self.spec_capacity(),
            self.buffered().len() > 0 ==> r.1 is Ok && r.0.buffered() == self.buffered()
                && *final(source) == *old(source),
    {
        proof {
            use_type_invariant(&self);
        }
        if self.pos < self.cap {
            return (self, Ok(()));
        }
        let ReadBuffer { mut buffer, pos, cap } = self;
        match source.read(buffer.as_mut_slice()) {
            Ok(n) => (ReadBuffer { buffer, pos: 0, cap: n }, Ok(())),
            Err(err) => (ReadBuffer { buffer, pos: 0, cap: 0 }, Err(err)),
        }
    }
}

/// Adds a buffer to a reader.
pub struct BufReader<R> {
    inner: R,
    buf: ReadBuffer,
}

impl<R: Read> BufReader<R> {
    pub fn new(inner: R) -> (r: BufReader<R>)
        ensures
            r.spec_inner() == inner,
            r.spec_capacity() == BUF_READER_CAPACITY,
            r.buffered() == Seq::<u8>::empty(),
    {
        Self::with_capacity(BUF_READER_CAPACITY, inner)
    }

    pub fn with_capacity(capacity: usize, inner: R) -> (r: BufReader<R>)
        ensures
            r.spec_inner() == inner,
            r.spec_capacity() == capacity,
            r.buffered() == Seq::<u8>::empty(),
    {
        BufReader { inner, buf: ReadBuffer::new(capacity) }
    }
}

impl<R> BufReader<R> {
    pub closed spec fn spec_inner(&self) -> R {
        self.inner
    }

    pub closed spec fn spec_capacity(&self) -> nat {
        self.buf.spec_capacity()
    }

    /// The bytes read from the source and not yet consumed.
    pub closed spec fn buffered(&self) -> Seq<u8> {
        self.buf.buffered()
    }

    pub fn get_ref(&self) -> (r: &R)
        ensures
            *r == self.spec_inner(),
    {
        &self.inner
    }

    pub fn get_mut(&mut self) -> (r: &mut R)
        ensures
            *r == old(self).spec_inner(),
            final(self).spec_inner() == *final(r),
            final(self).buffered() == old(self).buffered(),
            final(self).spec_capacity() == old(self).spec_capacity(),
    {
        &mut self.inner
    }

    pub fn buffer(&self) -> (r: &[u8])
        ensures
            r@ == self.buffered(),
            r@.len() <= self.spec_capacity(),
    {
        self.buf.bytes()
    }

    pub fn capacity(&self) -> (r: usize)
        ensures
            r == self.spec_capacity(),
    {
        self.buf.capacity()
    }

    pub fn into_inner(self) -> (r: R)
        ensures
            r == self.spec_inner(),
    {
        self.inner
    }

    fn discard_buffer(&mut self)
        ensures
            final(self).buffered() == Seq::<u8>::empty(),
            final(self).spec_inner() == old(self).spec_inner(),
            final(self).spec_capacity() == old(self).spec_capacity(),
    {
        self.buf.discard();
    }
}

impl<R: Read> BufReader<R> {
    /// When nothing is buffered, refills the buffer with one read of the
    /// source.
    fn refill(&mut self) -> (r: IoResult<()>)
        ensures
            final(self).spec_capacity() == old(self).spec_capacity(),
            old(self).buffered().len() > 0 ==> r is Ok && final(self).buffered() == old(self).buffered() && final(self).spec_inner() == old(self).spec_inner(),
    {
        let mut taken = ReadBuffer::placeholder();
        core::mem::swap(&mut taken, &mut self.buf);
        let (refilled, result) = taken.refill(&mut self.inner);
        self.buf = refilled;
        result
    }
}

impl<R: Read> Read for BufReader<R> {
    /// Copies buffered bytes into `buf`, refilling the buffer first when it
    /// is empty.
    fn read(&mut self, buf: &mut [u8]) -> (r: IoResult<usize>)
        ensures
            old(self).buffered().len() > 0 ==> {
                let n = if old(self).buffered().len() < old(buf)@.len() {
                    old(self).buffered().len()
                } else {
                    old(buf)@.len() as nat
                };
                &&& r is Ok && r->Ok_0 == n
                &&& final(buf)@ == old(self).buffered().take(n as int) + old(buf)@.skip(n as int)
                &&& final(self).buffered() == old(self).buffered().skip(n as int)
            },
    {
        self.refill()?;
        let amt = {
            let available = self.buf.bytes();
            let amt: usize = if available.len() < buf.len() {
                available.len()
            } else {
                buf.len()
            };
            copy_into(buf, 0, slice_subrange(available, 0, amt));
            proof {
                assert(old(buf)@.take(0) + available@.subrange(0, amt as int) =~= available@.take(
                    amt as int,
                ));
            }
            amt
        };
        self.buf.consume(amt);
        proof {
            if amt == old(self).buffered().len() {
                assert(old(self).buffered().skip(amt as int) =~= Seq::<u8>::empty());
            }
        }
        Ok(amt)
    }
}

impl<R: Read> BufRead for BufReader<R> {
    fn fill_buf(&mut self) -> (r: IoResult<&[u8]>)
        ensures
            old(self).buffered().len() > 0 ==> r is Ok && r->Ok_0@ == old(self).buffered(),
            r is Ok ==> r->Ok_0@ == final(self).buffered(),
    {
        self.refill()?;
        Ok(self.buf.bytes())
    }

    fn consume(&mut self, amt: usize) {
        self.buf.consume(amt)
    }
}

impl<R: Seek> Seek for BufReader<R> {
    /// Seeks the source, accounting for the buffered bytes on a relative
    /// seek; the buffer is emptied.
    fn seek(&mut self, pos: SeekFrom) -> (r: IoResult<u64>) {
        let result: u64;
        if let SeekFrom::Current(n) = pos {
            let remainder: usize = self.buf.available();
            if remainder as u64 > i64::MAX as u64 {
                return Err(Error::new(ErrorKind::InvalidInput, "buffered remainder too large"));
            }
            let remainder = remainder as i64;
            if n >= i64::MIN + remainder {
                result = self.inner.seek(SeekFrom::Current(n - remainder))?;
            } else {
                self.inner.seek(SeekFrom::Current(-remainder))?;
                self.discard_buffer();
                result = self.inner.seek(SeekFrom::Current(n))?;
            }
        } else {
            result = self.inner.seek(pos)?;
        }
        self.discard_buffer();
        Ok(result)
    }

    fn stream_len(&mut self) -> (r: IoResult<u64>) {
        self.inner.stream_len()
    }

    /// The source's position less the bytes still buffered.
    fn stream_position(&mut self) -> (r: IoResult<u64>) {
        let remainder = self.buf.available() as u64;
        let inner_pos = self.inner.stream_position()?;
        match inner_pos.checked_sub(remainder) {
            Some(p) => Ok(p),
            None => Err(
                Error::new(
                    ErrorKind::InvalidData,
                    "overflow when subtracting remaining buffer size from inner stream position",
                ),
            ),
        }
    }
}

} // verus!
