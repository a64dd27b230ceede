use vstd::prelude::*;
use vstd::slice::slice_subrange;
use vstd::string::StringExecFns;
use vstd::utf8::{decode_utf8, valid_utf8};
use super::error::{Error, ErrorKind, IoResult};

verus! {

/// How many `Interrupted` errors in a row a reading or writing loop retries
/// before it passes the error on.
pub const INTERRUPTED_RETRIES: usize = 64;

/// A source of bytes.
pub trait Read {
    /// Reads some bytes into the front of `buf`, returning how many; zero
    /// means the end of the stream, or an empty `buf`.
    fn read(&mut self, buf: &mut [u8]) -> (r: IoResult<usize>)
        ensures
            final(buf)@.len() == old(buf)@.len(),
            r is Ok ==> r->Ok_0 <= old(buf)@.len(),
    ;
}

/// Copies `src` into `dst` from position `at` on, leaving the rest of `dst`
/// as it was.
pub fn copy_into(dst: &mut [u8], at: usize, src: &[u8])
    requires
        at + src@.len() <= old(dst)@.len(),
    ensures
        final(dst)@ == old(dst)@.take(at as int) + src@ + old(dst)@.skip(at + src@.len()),
{
    let dlen = dst.len();
    let mut i: usize = 0;
    while i < src.len()
        invariant
            0 <= i <= src@.len(),
            dlen == dst@.len(),
            at + src@.len() <= dst@.len(),
            dst@.len() == old(dst)@.len(),
            forall|j: int| 0 <= j < at ==> dst@[j] == old(dst)@[j],
            forall|j: int| 0 <= j < i ==> dst@[at + j] == src@[j],
            forall|j: int| at + i <= j < dst@.len() ==> dst@[j] == old(dst)@[j],
        decreases src@.len() - i,
    {
        dst[at + i] = src[i];
        i = i + 1;
    }
    proof {
        let want = old(dst)@.take(at as int) + src@ + old(dst)@.skip(at + src@.len());
        assert forall|j: int| 0 <= j < dst@.len() implies dst@[j] == want[j] by {
            if j < at {
            } else if j < at + src@.len() {
                assert(dst@[at + (j - at)] == src@[j - at]);
            } else {
            }
        }
        assert(dst@ =~= want);
    }
}

/// Reads from `r` until `buf` is full. Running out of data first is an
/// `UnexpectedEof` error; an `Interrupted` error is retried.
pub fn read_exact<R: Read>(r: &mut R, buf: &mut [u8]) -> (res: IoResult<()>)
    ensures
        final(buf)@.len() == old(buf)@.len(),
        old(buf)@.len() == 0 ==> res is Ok,
{
    if buf.len() == 0 {
        return Ok(());
    }
    let mut filled: usize = 0;
    let mut retries: usize = INTERRUPTED_RETRIES;
    while filled < buf.len()
        invariant
            0 <= filled <= buf@.len(),
            buf@.len() == old(buf)@.len(),
        decreases buf@.len() - filled, retries,
    {
        let want = buf.len() - filled;
        let mut tmp = vec![0u8; want];
        let res = r.read(tmp.as_mut_slice());
        match res {
            Ok(n) => {
                if n == 0 {
                    return Err(
                        Error::new(
                            ErrorKind::UnexpectedEof,
                            "read_exact: reached EOF before end of buffer.",
                        ),
                    );
                }
                copy_into(buf, filled, slice_subrange(tmp.as_slice(), 0, n));
                filled = filled + n;
                retries = INTERRUPTED_RETRIES;
            },
            Err(err) => {
                if err.kind() == ErrorKind::Interrupted && retries > 0 {
                    retries = retries - 1;
                } else {
                    return Err(err);
                }
            },
        }
    }
    Ok(())
}

/// Appends everything `r` yields to `output` until the end of the stream,
/// returning the number of bytes appended. An `Interrupted` error is retried.
pub fn read_to_end<R: Read>(r: &mut R, output: &mut Vec<u8>) -> (res: IoResult<usize>)
    ensures
        final(output)@.len() >= old(output)@.len(),
        final(output)@.take(old(output)@.len() as int) == old(output)@,
        res is Ok ==> res->Ok_0 == final(output)@.len() - old(output)@.len(),
{
    let start_len = output.len();
    let mut retries: usize = INTERRUPTED_RETRIES;
    loop
        invariant
            output@.len() >= start_len,
            start_len == old(output)@.len(),
            output@.take(start_len as int) == old(output)@,
        decreases usize::MAX - output@.len(), retries,
    {
        let mut chunk = vec![0u8; 32];
        match r.read(chunk.as_mut_slice()) {
            Ok(n) => {
                if n == 0 {
                    return Ok(output.len() - start_len);
                }
                if n > usize::MAX - output.len() {
                    return Err(Error::new(ErrorKind::Other, "read_to_end: output too long"));
                }
                let ghost prev = output@;
                let mut i: usize = 0;
                while i < n
                    invariant
                        0 <= i <= n <= chunk@.len(),
                        n <= usize::MAX - prev.len(),
                        output@.len() == prev.len() + i,
                        output@.take(prev.len() as int) == prev,
                    decreases n - i,
                {
                    let ghost before = output@;
                    output.push(chunk[i]);
                    proof {
                        assert(output@.take(prev.len() as int) =~= before.take(prev.len() as int));
                    }
                    i = i + 1;
                }
                proof {
                    assert(output@.take(start_len as int) =~= prev.take(start_len as int));
                }
                retries = INTERRUPTED_RETRIES;
            },
            Err(err) => {
                if err.kind() == ErrorKind::Interrupted && retries > 0 {
                    retries = retries - 1;
                } else {
                    return Err(err);
                }
            },
        }
    }
}

/// Relies on `core::str::from_utf8`: the text exactly when the bytes are
/// valid UTF-8, and `None` otherwise.
#[verifier::external_body]
pub(crate) fn utf8_str(bytes: &[u8]) -> (r: Option<&str>)
    ensures
        r is Some <==> valid_utf8(bytes@),
        r matches Some(s) ==> s@ == decode_utf8(bytes@),
{
    core::str::from_utf8(bytes).ok()
}

/// Appends the decoded text of `count` bytes to `buf`; `None`, bytes that
/// were not valid UTF-8, is an error of kind `invalid` with `buf` unchanged.
pub fn append_decoded(buf: &mut String, decoded: Option<&str>, count: usize, invalid: ErrorKind) -> (res:
    IoResult<usize>)
    ensures
        match decoded {
            Some(t) => res is Ok && res->Ok_0 == count && final(buf)@ == old(buf)@ + t@,
            None => res is Err && res->Err_0.spec_kind() == invalid && final(buf)@ == old(buf)@,
        },
{
    match decoded {
        Some(text) => {
            buf.append(text);
            Ok(count)
        },
        None => Err(Error::new(invalid, "stream did not contain valid UTF-8")),
    }
}

/// Appends everything `r` yields to `buf`, which it must fill with valid
/// UTF-8; returns the number of bytes read. Invalid UTF-8 is an
/// `InvalidData` error and leaves `buf` as it was.
pub fn read_to_string<R: Read>(r: &mut R, buf: &mut String) -> (res: IoResult<usize>)
    ensures
        res is Err ==> final(buf)@ == old(buf)@,
        res is Ok ==> old(buf)@.is_prefix_of(final(buf)@) && exists|b: Seq<u8>|
            b.len() == res->Ok_0 && valid_utf8(b) && decode_utf8(b) == final(buf)@.skip(old(buf)@.len() as int),
{
    let mut bytes: Vec<u8> = Vec::new();
    let n = read_to_end(r, &mut bytes)?;
    let decoded = utf8_str(bytes.as_slice());
    let res = append_decoded(buf, decoded, n, ErrorKind::InvalidData);
    proof {
        if let Some(t) = decoded {
            assert(buf@.skip(old(buf)@.len() as int) =~= t@);
            assert(old(buf)@.is_prefix_of(buf@)) by {
                assert(buf@.subrange(0, old(buf)@.len() as int) =~= old(buf)@);
            }
            assert(bytes@.len() == n);
        }
    }
    res
}

/// A reader that yields `byte` forever.
#[derive(Clone, Copy, Debug)]
pub struct Repeat {
    byte: u8,
}

pub fn repeat(byte: u8) -> (r: Repeat)
    ensures
        r.spec_byte() == byte,
{
    Repeat { byte }
}

impl Repeat {
    pub closed spec fn spec_byte(&self) -> u8 {
        self.byte
    }

    /// Fills all of `buf` with the byte.
    pub fn fill(&mut self, buf: &mut [u8]) -> (r: usize)
        ensures
            r == old(buf)@.len(),
            final(buf)@ == Seq::new(old(buf)@.len(), |i: int| old(self).spec_byte()),
            *final(self) == *old(self),
    {
        let mut i: usize = 0;
        while i < buf.len()
            invariant
                0 <= i <= buf@.len(),
                buf@.len() == old(buf)@.len(),
                forall|j: int| 0 <= j < i ==> buf@[j] == self.byte,
            decreases buf@.len() - i,
        {
            buf[i] = self.byte;
            i = i + 1;
        }
        proof {
            assert(buf@ =~= Seq::new(old(buf)@.len(), |i: int| old(self).spec_byte()));
        }
        buf.len()
    }
}

impl Read for Repeat {
    /// Fills all of `buf` with the byte: the stream never ends.
    fn read(&mut self, buf: &mut [u8]) -> (r: IoResult<usize>)
        ensures
            r is Ok && r->Ok_0 == old(buf)@.len(),
            final(buf)@ == Seq::new(old(buf)@.len(), |i: int| old(self).spec_byte()),
            *final(self) == *old(self),
    {
        Ok(self.fill(buf))
    }
}

/// The bytes of a reader, one at a time.
pub struct Bytes<R> {
    inner: R,
}

impl<R: Read> Bytes<R> {
    pub fn new(inner: R) -> (r: Bytes<R>)
        ensures
            r.spec_inner() == inner,
    {
        Bytes { inner }
    }

    pub closed spec fn spec_inner(&self) -> R {
        self.inner
    }

    /// The next byte, `None` at the end of the stream, or the reader's error.
    pub fn next(&mut self) -> (r: Option<IoResult<u8>>) {
        let mut buf: Vec<u8> = vec![0u8; 1];
        match self.inner.read(buf.as_mut_slice()) {
            Ok(0) => None,
            Ok(_) => Some(Ok(buf[0])),
            Err(err) => Some(Err(err)),
        }
    }

    pub fn into_inner(self) -> (r: R)
        ensures
            r == self.spec_inner(),
    {
        self.inner
    }
}

} // verus!
