use vstd::prelude::*;
use vstd::slice::slice_subrange;
use super::error::{Error, ErrorKind, IoResult};
use super::read::{append_decoded, utf8_str, Read};
use vstd::utf8::{decode_utf8, valid_utf8};
use super::write::extend_from;

verus! {

/// The line terminator.
pub const NEWLINE: u8 = 10;

/// A reader with an internal buffer that can be looked at before it is
/// consumed.
pub trait BufRead: Read {
    /// The buffered bytes, refilled from the source when none are left;
    /// empty at the end of the stream.
    fn fill_buf(&mut self) -> (r: IoResult<&[u8]>);

    /// Marks `amt` buffered bytes as read (no more than are buffered).
    fn consume(&mut self, amt: usize);
}

/// Finds the first occurrence of `byte` in `buf`.
pub fn position_of(buf: &[u8], byte: u8) -> (r: Option<usize>)
    ensures
        match r {
            Some(i) => i < buf@.len() && buf@[i as int] == byte && forall|j: int|
                0 <= j < i ==> buf@[j] != byte,
            None => forall|j: int| 0 <= j < buf@.len() ==> buf@[j] != byte,
        },
{
    let mut i: usize = 0;
    while i < buf.len()
        invariant
            0 <= i <= buf@.len(),
            forall|j: int| 0 <= j < i ==> buf@[j] != byte,
        decreases buf@.len() - i,
    {
        if buf[i] == byte {
            return Some(i);
        }
        i = i + 1;
    }
    None
}

/// Takes the buffered bytes of `r` up to and including `byte`, or all of
/// them when `byte` is absent; appends them to `output` and consumes them.
/// Returns how many were taken and whether `byte` was among them; `(0, _)`
/// means the end of the stream.
fn take_through<R: BufRead>(r: &mut R, byte: u8, output: &mut Vec<u8>) -> (res: IoResult<(usize, bool)>)
    ensures
        res is Ok ==> final(output)@.len() == old(output)@.len() + res->Ok_0.0,
        res is Err ==> final(output)@ == old(output)@,
        final(output)@.take(old(output)@.len() as int) == old(output)@,
        res is Ok && res->Ok_0.1 ==> res->Ok_0.0 > 0 && final(output)@.last() == byte,
{
    let (used, found) = {
        let buf = r.fill_buf()?;
        let blen = buf.len();
        match position_of(buf, byte) {
            Some(index) => {
                extend_from(output, slice_subrange(buf, 0, index + 1));
                (index + 1, true)
            },
            None => {
                extend_from(output, buf);
                (buf.len(), false)
            },
        }
    };
    proof {
        assert(output@.take(old(output)@.len() as int) =~= old(output)@);
    }
    r.consume(used);
    Ok((used, found))
}

/// Reads from `r` into `output` up to and including the first `byte`, or to
/// the end of the stream; returns how many bytes were appended.
pub fn read_until<R: BufRead>(r: &mut R, byte: u8, output: &mut Vec<u8>) -> (res: IoResult<usize>)
    ensures
        final(output)@.len() >= old(output)@.len(),
        final(output)@.take(old(output)@.len() as int) == old(output)@,
        res is Ok ==> res->Ok_0 == final(output)@.len() - old(output)@.len(),
{
    let start_size = output.len();
    loop
        invariant
            output@.len() >= start_size,
            start_size == old(output)@.len(),
            output@.take(start_size as int) == old(output)@,
        decreases usize::MAX - output@.len(),
    {
        let ghost before = output@;
        let len_before = output.len();
        let (used, found) = take_through(r, byte, output)?;
        proof {
            assert(output@.take(start_size as int) =~= before.take(start_size as int));
        }
        if used == 0 || found {
            return Ok(output.len() - start_size);
        }
        if output.len() == usize::MAX {
            return Err(Error::new(ErrorKind::Other, "read_until: output too long"));
        }
        assert(output@.len() > len_before);
    }
}

/// Reads one line from `r`, through its `\n`, and appends it to `output`.
/// Bytes that are not valid UTF-8 are an `InvalidInput` error. Returns the
/// number of bytes read.
pub fn read_line<R: BufRead>(r: &mut R, output: &mut String) -> (res: IoResult<usize>)
    ensures
        res is Err ==> final(output)@ == old(output)@,
        res is Ok ==> old(output)@.is_prefix_of(final(output)@) && exists|b: Seq<u8>|
            b.len() == res->Ok_0 && valid_utf8(b) && decode_utf8(b) == final(output)@.skip(old(output)@.len() as int),
{
    let mut bytes: Vec<u8> = Vec::new();
    let n = read_until(r, NEWLINE, &mut bytes)?;
    let decoded = utf8_str(bytes.as_slice());
    let res = append_decoded(output, decoded, n, ErrorKind::InvalidInput);
    proof {
        if let Some(t) = decoded {
            assert(output@.skip(old(output)@.len() as int) =~= t@);
            assert(old(output)@.is_prefix_of(output@)) by {
                assert(output@.subrange(0, old(output)@.len() as int) =~= old(output)@);
            }
            assert(bytes@.len() == n);
        }
    }
    res
}

/// The pieces of a buffered reader separated by a byte.
pub struct Split<R> {
    inner: R,
    byte: u8,
}

impl<R: BufRead> Split<R> {
    pub fn new(inner: R, byte: u8) -> (r: Split<R>)
        ensures
            r.spec_inner() == inner,
            r.spec_byte() == byte,
    {
        Split { inner, byte }
    }

    pub closed spec fn spec_inner(&self) -> R {
        self.inner
    }

    pub closed spec fn spec_byte(&self) -> u8 {
        self.byte
    }

    /// The next piece, with its separator; `None` at the end of the stream.
    pub fn next(&mut self) -> (r: Option<IoResult<Vec<u8>>>)
        ensures
            r matches Some(Ok(v)) ==> v@.len() > 0,
            final(self).spec_byte() == old(self).spec_byte(),
    {
        let mut output: Vec<u8> = Vec::new();
        match read_until(&mut self.inner, self.byte, &mut output) {
            Ok(0) => None,
            Ok(_) => Some(Ok(output)),
            Err(err) => Some(Err(err)),
        }
    }
}

/// The lines of a buffered reader.
pub struct Lines<R> {
    inner: R,
}

impl<R: BufRead> Lines<R> {
    pub fn new(inner: R) -> (r: Lines<R>)
        ensures
            r.spec_inner() == inner,
    {
        Lines { inner }
    }

    pub closed spec fn spec_inner(&self) -> R {
        self.inner
    }

    /// The next line, with its `\n`; `None` at the end of the stream.
    pub fn next(&mut self) -> (r: Option<IoResult<String>>)
        ensures
            r matches Some(Ok(s)) ==> s@.len() > 0,
    {
        let mut buffer = String::new();
        let res = read_line(&mut self.inner, &mut buffer);
        proof {
            if let Ok(n) = res {
                if n > 0 {
                    let b = choose|b: Seq<u8>| b.len() == n && valid_utf8(b) && decode_utf8(b) == buffer@.skip(0);
                    assert(buffer@.skip(0) =~= buffer@);
                    reveal_with_fuel(decode_utf8, 1);
                }
            }
        }
        match res {
            Ok(0) => None,
            Ok(_) => Some(Ok(buffer)),
            Err(err) => Some(Err(err)),
        }
    }
}

} // verus!
