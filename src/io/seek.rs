use vstd::prelude::*;
use super::error::IoResult;

verus! {

/// Where a seek is measured from.
#[derive(Clone, Copy, Debug, PartialEq, Eq, Structural)]
pub enum SeekFrom {
    Start(u64),
    End(i64),
    Current(i64),
}

/// `base` moved by `offset`, if that stays within `u64`.
pub open spec fn offset_position(base: u64, offset: i64) -> Option<u64> {
    let t = base as int + offset as int;
    if 0 <= t <= u64::MAX {
        Some(t as u64)
    } else {
        None
    }
}

/// Moves `base` by `offset`; `None` when the result would be negative or
/// past `u64::MAX`.
pub fn checked_offset(base: u64, offset: i64) -> (r: Option<u64>)
    ensures
        r == offset_position(base, offset),
{
    if offset >= 0 {
        base.checked_add(offset as u64)
    } else {
        let magnitude: u64 = (-(offset + 1)) as u64 + 1;
        base.checked_sub(magnitude)
    }
}

/// A stream with a movable position.
pub trait Seek {
    /// Moves to `pos`, returning the new position from the start.
    fn seek(&mut self, pos: SeekFrom) -> (r: IoResult<u64>);

    /// The length of the stream; the position is left where it was.
    fn stream_len(&mut self) -> (r: IoResult<u64>) {
        let orig_position = self.stream_position()?;
        self.seek(SeekFrom::End(0))?;
        let end_position = self.stream_position()?;
        self.seek(SeekFrom::Start(orig_position))?;
        Ok(end_position)
    }

    /// The current position from the start.
    fn stream_position(&mut self) -> (r: IoResult<u64>) {
        self.seek(SeekFrom::Current(0))
    }
}

} // verus!
