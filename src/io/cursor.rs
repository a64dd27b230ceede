use vstd::prelude::*;
use vstd::slice::slice_subrange;
use super::error::{Error, ErrorKind, IoResult};
use super::read::{copy_into, Read};
use super::seek::{checked_offset, offset_position, Seek, SeekFrom};
use super::write::{extend_from, Write};

verus! {

/// An in-memory buffer with a read/write position.
#[derive(Clone, Copy, Debug, PartialEq, Eq, Default)]
pub struct Cursor<B> {
    inner: B,
    position: u64,
}

impl<B> Cursor<B> {
    pub closed spec fn spec_inner(&self) -> B {
        self.inner
    }

    pub closed spec fn spec_position(&self) -> u64 {
        self.position
    }

    pub fn new(inner: B) -> (r: Cursor<B>)
        ensures
            r.spec_inner() == inner,
            r.spec_position() == 0,
    {
        Cursor { inner, position: 0 }
    }

    pub fn into_inner(self) -> (r: B)
        ensures
            r == self.spec_inner(),
    {
        self.inner
    }

    pub fn get_ref(&self) -> (r: &B)
        ensures
            *r == self.spec_inner(),
    {
        &self.inner
    }

    pub fn get_mut(&mut self) -> (r: &mut B)
        ensures
            *r == old(self).spec_inner(),
            final(self).spec_inner() == *final(r),
            final(self).spec_position() == old(self).spec_position(),
    {
        &mut self.inner
    }

    pub fn position(&self) -> (r: u64)
        ensures
            r == self.spec_position(),
    {
        self.position
    }

    pub fn set_position(&mut self, position: u64)
        ensures
            final(self).spec_inner() == old(self).spec_inner(),
            final(self).spec_position() == position,
    {
        self.position = position;
    }
}

/// The bytes of `data` from `pos` on (none when `pos` is past the end).
pub open spec fn rest_from(data: Seq<u8>, pos: u64) -> Seq<u8> {
    if pos < data.len() {
        data.skip(pos as int)
    } else {
        Seq::empty()
    }
}

/// `n` zero bytes.
pub open spec fn zeros(n: nat) -> Seq<u8> {
    Seq::new(n, |i: int| 0u8)
}

/// What writing `data` at `pos` makes of `v`: zeros fill any gap up to
/// `pos`, `data` overwrites what lies under it and extends past the end.
pub open spec fn vec_write_spec(v: Seq<u8>, pos: nat, data: Seq<u8>) -> Seq<u8> {
    let padded = if v.len() < pos {
        v + zeros((pos - v.len()) as nat)
    } else {
        v
    };
    let end = pos + data.len();
    padded.take(pos as int) + data + if end < padded.len() {
        padded.skip(end as int)
    } else {
        Seq::empty()
    }
}

impl Cursor<Vec<u8>> {
    /// The unread part of the buffer.
    pub fn get_from_position(&self) -> (r: &[u8])
        ensures
            r@ == rest_from(self.spec_inner()@, self.spec_position()),
    {
        let buffer = self.inner.as_slice();
        let start: usize = if self.position < buffer.len() as u64 {
            self.position as usize
        } else {
            buffer.len()
        };
        slice_subrange(buffer, start, buffer.len())
    }

    /// Appends all the unread bytes to `buf`, returning how many.
    pub fn read_to_end(&mut self, buf: &mut Vec<u8>) -> (r: IoResult<usize>)
        ensures
            final(buf)@ == old(buf)@ + rest_from(old(self).spec_inner()@, old(self).spec_position()),
            r is Ok && r->Ok_0 == rest_from(old(self).spec_inner()@, old(self).spec_position()).len(),
            *final(self) == *old(self),
    {
        let data = self.get_from_position();
        extend_from(buf, data);
        Ok(data.len())
    }
}

impl Read for Cursor<Vec<u8>> {
    /// Copies as many unread bytes as fit into `buf` and moves past them.
    fn read(&mut self, buf: &mut [u8]) -> (r: IoResult<usize>)
        ensures
            ({
                let data = rest_from(old(self).spec_inner()@, old(self).spec_position());
                let n = if data.len() < old(buf)@.len() {
                    data.len()
                } else {
                    old(buf)@.len()
                };
                &&& r is Ok && r->Ok_0 == n
                &&& final(buf)@ == data.take(n as int) + old(buf)@.skip(n as int)
                &&& final(self).spec_position() == old(self).spec_position() + n
                &&& final(self).spec_inner() == old(self).spec_inner()
            }),
    {
        let data = self.get_from_position();
        if data.len() == 0 {
            proof {
                assert(buf@ =~= data@.take(0) + buf@.skip(0));
            }
            return Ok(0);
        }
        let read_len: usize = if data.len() < buf.len() {
            data.len()
        } else {
            buf.len()
        };
        let src = slice_subrange(data, 0, read_len);
        copy_into(buf, 0, src);
        proof {
            assert(old(buf)@.take(0) + src@ =~= data@.take(read_len as int));
        }
        let total = self.inner.len();
        proof {
            assert(self.position < self.inner@.len());
            assert(data@.len() == total - self.position);
        }
        self.position = self.position + read_len as u64;
        Ok(read_len)
    }
}

impl Seek for Cursor<Vec<u8>> {
    /// `Start` sets the position as given; `End` and `Current` move from the
    /// end or the current position, and fail with `InvalidInput` when the
    /// result would be negative or overflow.
    fn seek(&mut self, whence: SeekFrom) -> (r: IoResult<u64>)
        ensures
            final(self).spec_inner() == old(self).spec_inner(),
            ({
                let target = match whence {
                    SeekFrom::Start(n) => Some(n),
                    SeekFrom::End(n) => offset_position(old(self).spec_inner()@.len() as u64, n),
                    SeekFrom::Current(n) => offset_position(old(self).spec_position(), n),
                };
                match target {
                    Some(p) => r is Ok && r->Ok_0 == p && final(self).spec_position() == p,
                    None => r is Err && r->Err_0.spec_kind() == ErrorKind::InvalidInput
                        && final(self).spec_position() == old(self).spec_position(),
                }
            }),
    {
        let (base_pos, offset) = match whence {
            SeekFrom::Start(n) => {
                self.position = n;
                return Ok(n);
            },
            SeekFrom::End(n) => (self.inner.len() as u64, n),
            SeekFrom::Current(n) => (self.position, n),
        };
        match checked_offset(base_pos, offset) {
            Some(n) => {
                self.position = n;
                Ok(n)
            },
            None => Err(
                Error::new(
                    ErrorKind::InvalidInput,
                    "invalid seek to a negative or overflowing position",
                ),
            ),
        }
    }

    fn stream_len(&mut self) -> (r: IoResult<u64>)
        ensures
            r is Ok && r->Ok_0 == old(self).spec_inner()@.len(),
            *final(self) == *old(self),
    {
        Ok(self.inner.len() as u64)
    }

    /// The position, but no further than the end of the buffer.
    fn stream_position(&mut self) -> (r: IoResult<u64>)
        ensures
            r is Ok,
            r->Ok_0 == if old(self).spec_position() < old(self).spec_inner()@.len() {
                old(self).spec_position()
            } else {
                old(self).spec_inner()@.len() as u64
            },
            *final(self) == *old(self),
    {
        let len = self.inner.len() as u64;
        Ok(if self.position < len {
            self.position
        } else {
            len
        })
    }
}

/// Writes `data` into `slice` at `*pos_mut` (or at its end, if the position
/// is past it), as much as fits, and moves the position past what was
/// written.
pub fn slice_write(pos_mut: &mut u64, slice: &mut [u8], data: &[u8]) -> (r: IoResult<usize>)
    ensures
        ({
            let pos = if *old(pos_mut) < old(slice)@.len() {
                *old(pos_mut) as int
            } else {
                old(slice)@.len() as int
            };
            let room = old(slice)@.len() - pos;
            let amt = if data@.len() < room {
                data@.len() as int
            } else {
                room
            };
            &&& r is Ok && r->Ok_0 == amt
            &&& final(slice)@ == old(slice)@.take(pos) + data@.take(amt) + old(slice)@.skip(pos + amt)
            &&& *final(pos_mut) == *old(pos_mut) + amt
        }),
{
    let len = slice.len();
    let pos: usize = if *pos_mut < len as u64 {
        *pos_mut as usize
    } else {
        len
    };
    let room = len - pos;
    let amt: usize = if data.len() < room {
        data.len()
    } else {
        room
    };
    copy_into(slice, pos, slice_subrange(data, 0, amt));
    *pos_mut = *pos_mut + amt as u64;
    Ok(amt)
}

/// Writes `data` into `vec` at `*pos_mut`, padding with zeros up to the
/// position and growing the vector as needed; the position moves past the
/// data. A position from which `data` would not fit in memory is an
/// `InvalidInput` error.
pub fn vec_write(pos_mut: &mut u64, vec: &mut Vec<u8>, data: &[u8]) -> (r: IoResult<usize>)
    ensures
        *old(pos_mut) + data@.len() <= usize::MAX ==> {
            &&& r is Ok && r->Ok_0 == data@.len()
            &&& final(vec)@ == vec_write_spec(old(vec)@, *old(pos_mut) as nat, data@)
            &&& *final(pos_mut) == *old(pos_mut) + data@.len()
        },
        *old(pos_mut) + data@.len() > usize::MAX ==> {
            &&& r is Err && r->Err_0.spec_kind() == ErrorKind::InvalidInput
            &&& final(vec)@ == old(vec)@
            &&& *final(pos_mut) == *old(pos_mut)
        },
{
    if *pos_mut > (usize::MAX - data.len()) as u64 {
        return Err(
            Error::new(
                ErrorKind::InvalidInput,
                "cursor position exceed maximum possible vector length",
            ),
        );
    }
    let pos = *pos_mut as usize;
    let ghost v0 = vec@;
    let ghost padded = if v0.len() < pos {
        v0 + zeros((pos - v0.len()) as nat)
    } else {
        v0
    };
    while vec.len() < pos
        invariant
            vec@.len() <= padded.len(),
            vec@ == padded.take(vec@.len() as int),
            v0.len() <= vec@.len(),
            v0.len() < pos ==> padded == v0 + zeros((pos - v0.len()) as nat),
            padded.len() >= pos,
            v0.len() >= pos ==> vec@ == v0,
        decreases pos - vec@.len(),
    {
        let ghost before = vec@;
        proof {
            assert(v0.len() < pos);
            let z = zeros((pos - v0.len()) as nat);
            assert(padded == v0 + z);
            assert(before.len() < pos);
            assert(z[before.len() - v0.len()] == 0u8);
            assert((v0 + z)[before.len() as int] == z[before.len() - v0.len()]);
            assert(padded[before.len() as int] == 0u8);
        }
        vec.push(0u8);
        proof {
            assert(vec@ =~= padded.take(vec@.len() as int));
        }
    }
    proof {
        assert(vec@ =~= padded);
    }
    let space = vec.len() - pos;
    let left: usize = if space < data.len() {
        space
    } else {
        data.len()
    };
    let vlen = vec.len();
    let mut j: usize = 0;
    while j < left
        invariant
            vlen == vec@.len(),
            0 <= j <= left,
            left <= data@.len(),
            pos + left <= vec@.len(),
            vec@.len() == padded.len(),
            forall|k: int| 0 <= k < pos ==> vec@[k] == padded[k],
            forall|k: int| 0 <= k < j ==> vec@[pos + k] == data@[k],
            forall|k: int| pos + j <= k < vec@.len() ==> vec@[k] == padded[k],
        decreases left - j,
    {
        vec.set(pos + j, data[j]);
        j = j + 1;
    }
    let ghost mid = vec@;
    extend_from(vec, slice_subrange(data, left, data.len()));
    proof {
        let want = vec_write_spec(v0, pos as nat, data@);
        assert(want.len() == vec@.len());
        assert forall|k: int| 0 <= k < vec@.len() implies vec@[k] == want[k] by {
            if k < pos {
            } else if k < pos + left {
                assert(vec@[k] == mid[k]);
                assert(mid[pos + (k - pos)] == data@[k - pos]);
            } else if k < pos + data@.len() {
                assert(vec@[k] == data@.subrange(left as int, data@.len() as int)[k - mid.len()]);
            } else {
                assert(vec@[k] == mid[k]);
            }
        }
        assert(vec@ =~= want);
    }
    *pos_mut = (pos + data.len()) as u64;
    Ok(data.len())
}

impl Write for Cursor<Vec<u8>> {
    fn write(&mut self, data: &[u8]) -> (r: IoResult<usize>)
        ensures
            old(self).spec_position() + data@.len() <= usize::MAX ==> {
                &&& r is Ok && r->Ok_0 == data@.len()
                &&& final(self).spec_inner()@ == vec_write_spec(
                    old(self).spec_inner()@,
                    old(self).spec_position() as nat,
                    data@,
                )
                &&& final(self).spec_position() == old(self).spec_position() + data@.len()
            },
            old(self).spec_position() + data@.len() > usize::MAX ==> r is Err,
    {
        vec_write(&mut self.position, &mut self.inner, data)
    }

    fn flush(&mut self) -> (r: IoResult<()>)
        ensures
            r is Ok,
            *final(self) == *old(self),
    {
        Ok(())
    }
}

impl<'a> Write for Cursor<&'a mut [u8]> {
    fn write(&mut self, data: &[u8]) -> (r: IoResult<usize>) {
        slice_write(&mut self.position, self.inner, data)
    }

    fn flush(&mut self) -> (r: IoResult<()>) {
        Ok(())
    }
}

} // verus!
