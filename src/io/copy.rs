use vstd::prelude::*;
use vstd::slice::slice_subrange;
use super::error::{Error, ErrorKind, IoResult};
use super::read::Read;
use super::write::{write_all, Write};

verus! {

/// Size of the buffer `copy` moves data through.
pub const COPY_BUFFER_SIZE: usize = 4096;

/// Moves everything `reader` yields into `writer`, until the reader's end;
/// returns the number of bytes moved.
pub fn copy<R: Read, W: Write>(reader: &mut R, writer: &mut W) -> (r: IoResult<usize>) {
    let mut buffer: Vec<u8> = vec![0u8; COPY_BUFFER_SIZE];
    let mut total: usize = 0;
    loop
        invariant
            buffer@.len() == COPY_BUFFER_SIZE,
        decreases usize::MAX - total,
    {
        let amt = reader.read(buffer.as_mut_slice())?;
        if amt == 0 {
            return Ok(total);
        }
        write_all(writer, slice_subrange(buffer.as_slice(), 0, amt))?;
        if amt > usize::MAX - total {
            return Err(Error::new(ErrorKind::Other, "copy: byte count overflow"));
        }
        total = total + amt;
    }
}

} // verus!
