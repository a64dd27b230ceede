use vstd::prelude::*;
use vstd::slice::slice_subrange;
use super::error::{Error, ErrorKind, IoResult};

verus! {

/// A sink of bytes.
pub trait Write {
    /// Writes some prefix of `data`, returning its length.
    fn write(&mut self, data: &[u8]) -> (r: IoResult<usize>)
        ensures
            r is Ok ==> r->Ok_0 <= data@.len(),
    ;

    /// Pushes out anything buffered.
    fn flush(&mut self) -> (r: IoResult<()>);
}

/// Writes all of `buf` to `w`, one `write` after another. A `write` that
/// takes nothing of a non-empty rest is a `WriteZero` error.
pub fn write_all<W: Write>(w: &mut W, buf: &[u8]) -> (r: IoResult<()>)
    ensures
        buf@.len() == 0 ==> r is Ok && *final(w) == *old(w),
{
    if buf.len() == 0 {
        return Ok(());
    }
    let mut start: usize = 0;
    while start < buf.len()
        invariant
            0 <= start <= buf@.len(),
        decreases buf@.len() - start,
    {
        let rest = slice_subrange(buf, start, buf.len());
        let n = w.write(rest)?;
        if n == 0 {
            return Err(Error::new(ErrorKind::WriteZero, "failed to write whole buffer"));
        }
        start = start + n;
    }
    Ok(())
}

/// A writer that accepts and discards everything.
#[derive(Debug, Default)]
pub struct Sink {
    _private: (),
}

pub fn sink() -> (r: Sink) {
    Sink { _private: () }
}

impl Sink {
    /// Accepts all of `data`.
    pub fn write_all(&mut self, data: &[u8]) -> (r: IoResult<()>)
        ensures
            r is Ok,
    {
        Ok(())
    }
}

impl Write for Sink {
    fn write(&mut self, data: &[u8]) -> (r: IoResult<usize>)
        ensures
            r is Ok && r->Ok_0 == data@.len(),
    {
        Ok(data.len())
    }

    fn flush(&mut self) -> (r: IoResult<()>)
        ensures
            r is Ok,
    {
        Ok(())
    }
}

/// Appends `data` to `v`.
pub fn extend_from(v: &mut Vec<u8>, data: &[u8])
    ensures
        final(v)@ == old(v)@ + data@,
{
    let mut i: usize = 0;
    while i < data.len()
        invariant
            0 <= i <= data@.len(),
            v@ == old(v)@ + data@.take(i as int),
        decreases data@.len() - i,
    {
        v.push(data[i]);
        proof {
            assert(data@.take(i as int + 1) =~= data@.take(i as int).push(data@[i as int]));
        }
        i = i + 1;
    }
    proof {
        assert(data@.take(i as int) =~= data@);
    }
}

impl Write for Vec<u8> {
    fn write(&mut self, data: &[u8]) -> (r: IoResult<usize>)
        ensures
            r is Ok && r->Ok_0 == data@.len(),
            final(self)@ == old(self)@ + data@,
    {
        extend_from(self, data);
        Ok(data.len())
    }

    fn flush(&mut self) -> (r: IoResult<()>)
        ensures
            r is Ok,
            final(self)@ == old(self)@,
    {
        Ok(())
    }
}

} // verus!
