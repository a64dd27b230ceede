use coop_kernel::io::buf_read::{read_line, read_until, BufRead, Lines, Split};
use coop_kernel::io::buf_reader::BufReader;
use coop_kernel::io::buf_writer::{BufWriter, IntoInnerError};
use coop_kernel::io::chain::Chain;
use coop_kernel::io::copy::copy;
use coop_kernel::io::cursor::{slice_write, vec_write, Cursor};
use coop_kernel::io::empty::empty;
use coop_kernel::io::error::{Error, ErrorKind, IoResult};
use coop_kernel::io::line_writer::LineWriter;
use coop_kernel::io::read::{
    append_decoded, read_exact, read_to_end, read_to_string, repeat, Bytes, Read,
};
use coop_kernel::io::seek::{checked_offset, Seek, SeekFrom};
use coop_kernel::io::take::Take;
use coop_kernel::io::write::{sink, write_all, Write};

/// A reader that yields its data in pieces of at most `step` bytes.
struct Trickle {
    data: Vec<u8>,
    pos: usize,
    step: usize,
}

impl Read for Trickle {
    fn read(&mut self, buf: &mut [u8]) -> IoResult<usize> {
        let n = (self.data.len() - self.pos).min(buf.len()).min(self.step);
        buf[..n].copy_from_slice(&self.data[self.pos..self.pos + n]);
        self.pos += n;
        Ok(n)
    }
}

/// A writer that always fails.
struct Broken;

impl Write for Broken {
    fn write(&mut self, _data: &[u8]) -> IoResult<usize> {
        Err(Error::new(ErrorKind::BrokenPipe, "gone"))
    }
    fn flush(&mut self) -> IoResult<()> {
        Ok(())
    }
}

/// A writer that accepts nothing.
struct Stuck;

impl Write for Stuck {
    fn write(&mut self, _data: &[u8]) -> IoResult<usize> {
        Ok(0)
    }
    fn flush(&mut self) -> IoResult<()> {
        Ok(())
    }
}

#[test]
fn error_kind_texts() {
    assert_eq!(ErrorKind::NotFound.as_str(), "entity not found");
    assert_eq!(ErrorKind::UnexpectedEof.as_str(), "unexpected end of file");
    assert_eq!(ErrorKind::WriteZero.as_str(), "write zero");
    let e = Error::from_kind(ErrorKind::TimedOut);
    assert_eq!(e.kind(), ErrorKind::TimedOut);
    assert!(e.get_ref().is_none());
    assert_eq!(e.to_text(), "timed out");
    let mut e = Error::new(ErrorKind::Other, "boom");
    assert_eq!(e.get_ref().map(|s| s.as_str()), Some("boom"));
    assert_eq!(e.to_text(), "boom");
    *e.get_mut() = Some("bang".to_string());
    assert_eq!(e.into_inner().as_deref(), Some("bang"));
}

#[test]
fn cursor_reads_in_order_and_stops_at_end() {
    let mut c = Cursor::new(vec![1u8, 2, 3, 4, 5]);
    let mut buf = [0u8; 3];
    assert_eq!(c.read(&mut buf).unwrap(), 3);
    assert_eq!(buf, [1, 2, 3]);
    assert_eq!(c.position(), 3);
    assert_eq!(c.read(&mut buf).unwrap(), 2);
    assert_eq!(buf, [4, 5, 3]);
    assert_eq!(c.read(&mut buf).unwrap(), 0);
    c.set_position(1);
    let mut out = vec![9u8];
    assert_eq!(c.read_to_end(&mut out).unwrap(), 4);
    assert_eq!(out, vec![9, 2, 3, 4, 5]);
    assert_eq!(c.get_ref().len(), 5);
    c.get_mut().push(6);
    assert_eq!(c.into_inner(), vec![1, 2, 3, 4, 5, 6]);
}

#[test]
fn cursor_seeks() {
    let mut c = Cursor::new(vec![0u8; 10]);
    assert_eq!(c.seek(SeekFrom::Start(4)).unwrap(), 4);
    assert_eq!(c.seek(SeekFrom::Current(-2)).unwrap(), 2);
    assert_eq!(c.seek(SeekFrom::End(-1)).unwrap(), 9);
    assert_eq!(c.seek(SeekFrom::End(5)).unwrap(), 15);
    assert_eq!(c.stream_position().unwrap(), 10);
    assert_eq!(c.stream_len().unwrap(), 10);
    let err = c.seek(SeekFrom::Current(-20)).unwrap_err();
    assert_eq!(err.kind(), ErrorKind::InvalidInput);
    assert_eq!(c.position(), 15);
    assert_eq!(checked_offset(u64::MAX, 1), None);
    assert_eq!(checked_offset(5, i64::MIN), None);
    assert_eq!(checked_offset(u64::MAX, i64::MIN), Some(u64::MAX - (1u64 << 63)));
}

#[test]
fn cursor_writes_over_and_past_the_end() {
    let mut c = Cursor::new(vec![1u8, 2, 3]);
    c.set_position(1);
    assert_eq!(c.write(&[7, 8, 9]).unwrap(), 3);
    assert_eq!(c.position(), 4);
    assert_eq!(c.get_ref(), &vec![1, 7, 8, 9]);
    c.set_position(6);
    assert_eq!(c.write(&[5]).unwrap(), 1);
    assert_eq!(c.into_inner(), vec![1, 7, 8, 9, 0, 0, 5]);
    let mut v = vec![1u8, 2, 3, 4];
    let mut pos = 1u64;
    assert_eq!(vec_write(&mut pos, &mut v, &[0]).unwrap(), 1);
    assert_eq!(v, vec![1, 0, 3, 4]);
    assert_eq!(pos, 2);
    let mut pos = u64::MAX;
    assert_eq!(vec_write(&mut pos, &mut v, &[1]).unwrap_err().kind(), ErrorKind::InvalidInput);
}

#[test]
fn slice_cursor_writes_what_fits() {
    let mut backing = [0u8; 4];
    let mut pos = 2u64;
    assert_eq!(slice_write(&mut pos, &mut backing, &[1, 2, 3]).unwrap(), 2);
    assert_eq!(backing, [0, 0, 1, 2]);
    assert_eq!(pos, 4);
    assert_eq!(slice_write(&mut pos, &mut backing, &[5]).unwrap(), 0);
    let mut storage = [0u8; 3];
    let mut c = Cursor::new(&mut storage[..]);
    assert_eq!(c.write(&[4, 5, 6, 7]).unwrap(), 3);
    assert_eq!(c.position(), 3);
    assert!(c.flush().is_ok());
    assert_eq!(storage, [4, 5, 6]);
}

#[test]
fn read_exact_fills_or_reports_eof() {
    let mut r = Trickle { data: vec![1, 2, 3, 4, 5], pos: 0, step: 2 };
    let mut buf = [0u8; 4];
    read_exact(&mut r, &mut buf).unwrap();
    assert_eq!(buf, [1, 2, 3, 4]);
    let mut buf = [0u8; 3];
    let err = read_exact(&mut r, &mut buf).unwrap_err();
    assert_eq!(err.kind(), ErrorKind::UnexpectedEof);
    let mut none: [u8; 0] = [];
    assert!(read_exact(&mut r, &mut none).is_ok());
}

#[test]
fn read_to_end_collects_everything() {
    let data: Vec<u8> = (0..100u8).collect();
    let mut r = Trickle { data: data.clone(), pos: 0, step: 7 };
    let mut out = vec![42u8];
    assert_eq!(read_to_end(&mut r, &mut out).unwrap(), 100);
    assert_eq!(out[0], 42);
    assert_eq!(&out[1..], &data[..]);
}

#[test]
fn empty_reader_has_nothing() {
    let mut e = empty();
    let mut buf = [7u8; 2];
    assert_eq!(e.read(&mut buf).unwrap(), 0);
    assert_eq!(buf, [7, 7]);
    assert_eq!(e.read_exact(&mut buf).unwrap_err().kind(), ErrorKind::UnexpectedEof);
    assert!(e.read_exact(&mut []).is_ok());
    let mut v = Vec::new();
    assert_eq!(e.read_to_end(&mut v).unwrap(), 0);
    assert_eq!(e.read_until(b'x', &mut v).unwrap(), 0);
    let mut s = String::new();
    assert_eq!(e.read_to_string(&mut s).unwrap(), 0);
    assert_eq!(e.read_line(&mut s).unwrap(), 0);
    assert!(e.fill_buf().unwrap().is_empty());
    e.consume(3);
    assert_eq!(e.seek(SeekFrom::End(4)).unwrap(), 0);
    assert_eq!(e.stream_len().unwrap(), 0);
    assert_eq!(e.stream_position().unwrap(), 0);
}

#[test]
fn repeat_and_bytes() {
    let mut r = repeat(0xAB);
    let mut buf = [0u8; 5];
    assert_eq!(r.read(&mut buf).unwrap(), 5);
    assert_eq!(buf, [0xAB; 5]);
    let mut bytes = Bytes::new(Cursor::new(vec![1u8, 2]));
    assert_eq!(bytes.next().unwrap().unwrap(), 1);
    assert_eq!(bytes.next().unwrap().unwrap(), 2);
    assert!(bytes.next().is_none());
}

#[test]
fn sink_and_write_all() {
    let mut s = sink();
    assert_eq!(s.write(&[1, 2, 3]).unwrap(), 3);
    assert!(s.write_all(&[1]).is_ok());
    assert!(s.flush().is_ok());
    let mut v: Vec<u8> = vec![1];
    write_all(&mut v, &[2, 3]).unwrap();
    assert_eq!(v, vec![1, 2, 3]);
    assert_eq!(write_all(&mut Stuck, &[1]).unwrap_err().kind(), ErrorKind::WriteZero);
    assert!(write_all(&mut Stuck, &[]).is_ok());
    assert_eq!(write_all(&mut Broken, &[1]).unwrap_err().kind(), ErrorKind::BrokenPipe);
}

#[test]
fn chain_reads_first_then_second() {
    let mut c = Chain::new(Cursor::new(vec![1u8, 2]), Cursor::new(vec![3u8, 4, 5]));
    let mut out = Vec::new();
    assert_eq!(read_to_end(&mut c, &mut out).unwrap(), 5);
    assert_eq!(out, vec![1, 2, 3, 4, 5]);
    let (a, b) = c.get_ref();
    assert_eq!(a.position(), 2);
    assert_eq!(b.position(), 3);
    let (a, _b) = c.get_mut();
    a.set_position(0);
    let (a, b) = c.into_inner();
    assert_eq!(a.position(), 0);
    assert_eq!(b.into_inner(), vec![3, 4, 5]);
}

#[test]
fn chain_of_buffered_readers_reads_lines_across() {
    let first = BufReader::new(Cursor::new(b"ab".to_vec()));
    let second = BufReader::new(Cursor::new(b"c\nd".to_vec()));
    let mut c = Chain::new(first, second);
    let mut v = Vec::new();
    assert_eq!(read_until(&mut c, b'\n', &mut v).unwrap(), 4);
    assert_eq!(v, b"abc\n".to_vec());
}

#[test]
fn take_limits_reads() {
    let mut t = Take::new(Cursor::new(vec![1u8, 2, 3, 4, 5]), 3);
    let mut buf = [0u8; 2];
    assert_eq!(t.read(&mut buf).unwrap(), 2);
    assert_eq!(t.limit(), 1);
    assert_eq!(t.read(&mut buf).unwrap(), 1);
    assert_eq!(buf, [3, 2]);
    assert_eq!(t.read(&mut buf).unwrap(), 0);
    assert_eq!(t.get_ref().position(), 3);
    assert_eq!(t.into_inner().position(), 3);
    let mut tb = Take::new(BufReader::new(Cursor::new(vec![1u8, 2, 3])), 2);
    assert_eq!(tb.fill_buf().unwrap(), &[1, 2]);
    tb.consume(5);
    assert_eq!(tb.limit(), 0);
    assert!(tb.fill_buf().unwrap().is_empty());
}

#[test]
fn copy_moves_all_bytes() {
    let data: Vec<u8> = (0..=255u8).cycle().take(10000).collect();
    let mut r = Trickle { data: data.clone(), pos: 0, step: 999 };
    let mut w: Vec<u8> = Vec::new();
    assert_eq!(copy(&mut r, &mut w).unwrap(), 10000);
    assert_eq!(w, data);
    let mut r = Cursor::new(vec![1u8]);
    assert_eq!(copy(&mut r, &mut Broken).unwrap_err().kind(), ErrorKind::BrokenPipe);
}

#[test]
fn buf_reader_buffers_and_consumes() {
    let mut r = BufReader::with_capacity(4, Cursor::new(vec![1u8, 2, 3, 4, 5, 6]));
    assert_eq!(r.capacity(), 4);
    assert!(r.buffer().is_empty());
    assert_eq!(r.fill_buf().unwrap(), &[1, 2, 3, 4]);
    assert!(r.buffer().len() <= r.capacity());
    r.consume(1);
    assert_eq!(r.buffer(), &[2, 3, 4]);
    let mut buf = [0u8; 2];
    assert_eq!(r.read(&mut buf).unwrap(), 2);
    assert_eq!(buf, [2, 3]);
    assert_eq!(r.stream_position().unwrap(), 3);
    r.consume(10);
    assert!(r.buffer().is_empty());
    assert_eq!(r.fill_buf().unwrap(), &[5, 6]);
    assert_eq!(r.seek(SeekFrom::Current(-1)).unwrap(), 3);
    assert!(r.buffer().is_empty());
    assert_eq!(r.fill_buf().unwrap(), &[4, 5, 6]);
    assert_eq!(r.seek(SeekFrom::Start(0)).unwrap(), 0);
    assert_eq!(r.stream_len().unwrap(), 6);
    assert_eq!(r.get_ref().position(), 0);
    r.get_mut().set_position(5);
    assert_eq!(r.into_inner().position(), 5);
}

#[test]
fn read_until_and_lines() {
    let mut r = BufReader::with_capacity(3, Cursor::new(b"one\ntwo\nend".to_vec()));
    let mut v = Vec::new();
    assert_eq!(read_until(&mut r, b'\n', &mut v).unwrap(), 4);
    assert_eq!(v, b"one\n".to_vec());
    let mut s = String::from(">");
    assert_eq!(read_line(&mut r, &mut s).unwrap(), 4);
    assert_eq!(s, ">two\n");
    let mut lines = Lines::new(r);
    assert_eq!(lines.next().unwrap().unwrap(), "end");
    assert!(lines.next().is_none());
    let mut split = Split::new(Cursor::new(b"a,b".to_vec()).into_buffered(), b',');
    assert_eq!(split.next().unwrap().unwrap(), b"a,".to_vec());
    assert_eq!(split.next().unwrap().unwrap(), b"b".to_vec());
    assert!(split.next().is_none());
}

trait IntoBuffered: Read + Sized {
    fn into_buffered(self) -> BufReader<Self> {
        BufReader::new(self)
    }
}

impl IntoBuffered for Cursor<Vec<u8>> {}

#[test]
fn read_line_rejects_invalid_utf8() {
    let mut r = BufReader::new(Cursor::new(vec![0x61, 0xFF, b'\n']));
    let mut s = String::from("keep");
    let err = read_line(&mut r, &mut s).unwrap_err();
    assert_eq!(err.kind(), ErrorKind::InvalidInput);
    assert_eq!(s, "keep");
    let mut r = BufReader::new(Cursor::new("h\u{e9}!\n".as_bytes().to_vec()));
    let mut s = String::new();
    assert_eq!(read_line(&mut r, &mut s).unwrap(), 5);
    assert_eq!(s, "h\u{e9}!\n");
}

#[test]
fn buf_writer_collects_small_writes() {
    let mut w = BufWriter::with_capacity(8, Vec::new());
    assert_eq!(w.capacity(), 8);
    assert_eq!(w.write(&[1, 2, 3]).unwrap(), 3);
    assert_eq!(w.buffer(), &[1, 2, 3]);
    assert!(w.get_ref().is_empty());
    assert_eq!(w.write(&[4, 5, 6, 7, 8, 9]).unwrap(), 6);
    assert_eq!(w.get_ref(), &vec![1, 2, 3]);
    assert_eq!(w.buffer(), &[4, 5, 6, 7, 8, 9]);
    assert_eq!(w.write(&[0; 10]).unwrap(), 10);
    assert!(w.buffer().is_empty());
    assert_eq!(w.get_ref().len(), 19);
    w.write_all(&[1]).unwrap();
    w.flush().unwrap();
    assert_eq!(w.get_mut().len(), 20);
    let inner = w.into_inner().unwrap();
    assert_eq!(inner.len(), 20);
    let w = BufWriter::new(Vec::new());
    assert_eq!(w.capacity(), 1024);
}

#[test]
fn buf_writer_hands_back_writer_on_error() {
    let mut w = BufWriter::new(Broken);
    w.write(&[1, 2]).unwrap();
    let err: IntoInnerError<BufWriter<Broken>> = match w.into_inner() {
        Err(e) => e,
        Ok(_) => panic!("flush to a broken writer succeeded"),
    };
    assert_eq!(err.error().kind(), ErrorKind::BrokenPipe);
    let w = err.into_inner();
    assert_eq!(w.buffer(), &[1, 2]);
    assert_eq!(w.capacity(), 1024);
    let e = IntoInnerError::new(3u8, Error::from_kind(ErrorKind::Other));
    let e = e.new_wrapped(|x| x as u32 + 1);
    assert_eq!(e.error().kind(), ErrorKind::Other);
    assert_eq!(e.into_inner(), 4u32);
}

#[test]
fn line_writer_flushes_on_newline() {
    let mut w = LineWriter::new(Vec::new());
    w.write(b"abc").unwrap();
    assert!(w.get_ref().is_empty());
    w.write(b"d\ne").unwrap();
    assert_eq!(w.get_ref(), &b"abcd\ne".to_vec());
    w.write(b"f").unwrap();
    w.flush().unwrap();
    assert_eq!(w.get_mut().len(), 7);
    assert_eq!(w.into_inner().unwrap(), b"abcd\nef".to_vec());
    assert_eq!(LineWriter::new(Vec::new()).capacity(), 1024);
    let mut w = LineWriter::with_capacity(4, Broken);
    assert_eq!(w.capacity(), 4);
    w.write(b"x").unwrap();
    assert!(w.into_inner().is_err());
}

#[test]
fn read_to_string_decodes_or_fails() {
    let mut r = Cursor::new("caf\u{e9} ok".as_bytes().to_vec());
    let mut s = String::from("> ");
    assert_eq!(read_to_string(&mut r, &mut s).unwrap(), 8);
    assert_eq!(s, "> caf\u{e9} ok");
    let mut r = Cursor::new(vec![0xC3u8]);
    let mut s = String::from("same");
    assert_eq!(read_to_string(&mut r, &mut s).unwrap_err().kind(), ErrorKind::InvalidData);
    assert_eq!(s, "same");
}

#[test]
fn append_decoded_exact() {
    let mut s = String::from("a");
    assert_eq!(append_decoded(&mut s, Some("bc"), 2, ErrorKind::InvalidData).unwrap(), 2);
    assert_eq!(s, "abc");
    let e = append_decoded(&mut s, None, 2, ErrorKind::InvalidInput).unwrap_err();
    assert_eq!(e.kind(), ErrorKind::InvalidInput);
    assert_eq!(s, "abc");
}
