use vstd::prelude::*;
use super::error::{Error, ErrorKind, IoResult};
use super::read::Read;
use super::seek::{Seek, SeekFrom};

verus! {

/// A reader that is always at its end.
#[derive(Debug)]
pub struct Empty {
    _private: (),
}

pub fn empty() -> (r: Empty) {
    Empty { _private: () }
}

impl Empty {
    pub fn read_to_end(&mut self, buf: &mut Vec<u8>) -> (r: IoResult<usize>)
        ensures
            r is Ok && r->Ok_0 == 0,
            final(buf)@ == old(buf)@,
    {
        Ok(0)
    }

    pub fn read_to_string(&mut self, buf: &mut String) -> (r: IoResult<usize>)
        ensures
            r is Ok && r->Ok_0 == 0,
            final(buf)@ == old(buf)@,
    {
        Ok(0)
    }

    /// Succeeds only for an empty `buf`: there is nothing to read.
    pub fn read_exact(&mut self, buf: &mut [u8]) -> (r: IoResult<()>)
        ensures
            final(buf)@ == old(buf)@,
            r is Ok <==> old(buf)@.len() == 0,
            r is Err ==> r->Err_0.spec_kind() == ErrorKind::UnexpectedEof,
    {
        if buf.len() > 0 {
            Err(
                Error::new(
                    ErrorKind::UnexpectedEof,
                    "read_exact: Empty does not contain any data.",
                ),
            )
        } else {
            Ok(())
        }
    }

    pub fn fill_buf(&mut self) -> (r: IoResult<&[u8]>)
        ensures
            r is Ok && r->Ok_0@.len() == 0,
    {
        let e: &[u8] = &[];
        Ok(e)
    }

    pub fn consume(&mut self, amt: usize) {
    }

    pub fn read_until(&mut self, byte: u8, buf: &mut Vec<u8>) -> (r: IoResult<usize>)
        ensures
            r is Ok && r->Ok_0 == 0,
            final(buf)@ == old(buf)@,
    {
        Ok(0)
    }

    pub fn read_line(&mut self, buf: &mut String) -> (r: IoResult<usize>)
        ensures
            r is Ok && r->Ok_0 == 0,
            final(buf)@ == old(buf)@,
    {
        Ok(0)
    }
}

impl Read for Empty {
    fn read(&mut self, buf: &mut [u8]) -> (r: IoResult<usize>)
        ensures
            r is Ok && r->Ok_0 == 0,
            final(buf)@ == old(buf)@,
    {
        Ok(0)
    }
}

impl Seek for Empty {
    fn seek(&mut self, pos: SeekFrom) -> (r: IoResult<u64>)
        ensures
            r is Ok && r->Ok_0 == 0,
    {
        Ok(0)
    }

    fn stream_len(&mut self) -> (r: IoResult<u64>)
        ensures
            r is Ok && r->Ok_0 == 0,
    {
        Ok(0)
    }

    fn stream_position(&mut self) -> (r: IoResult<u64>)
        ensures
            r is Ok && r->Ok_0 == 0,
    {
        Ok(0)
    }
}

} // verus!
