use std::io;

use mxfuse::sink::{drain_step, write_available, Drained};
use mxfuse::{ByteSink, SeekFrom};

/// An in-memory sink that takes at most `chunk` bytes per write.
struct Chunked {
    bytes: Vec<u8>,
    position: usize,
    chunk: usize,
}

impl ByteSink for Chunked {
    fn write(&mut self, buf: &[u8]) -> io::Result<usize> {
        let n = buf.len().min(self.chunk);
        let end = self.position + n;
        if n > 0 && self.bytes.len() < end {
            self.bytes.resize(end, 0);
        }
        self.bytes[self.position..end].copy_from_slice(&buf[..n]);
        self.position = end;
        Ok(n)
    }

    fn seek(&mut self, pos: SeekFrom) -> io::Result<u64> {
        if let SeekFrom::Start(offset) = pos {
            self.position = offset as usize;
            return Ok(offset);
        }
        Err(io::Error::other("only absolute seeks"))
    }

    fn tell(&mut self) -> io::Result<u64> {
        Ok(self.position as u64)
    }
}

#[test]
fn write_available_writes_everything_in_chunks() {
    let mut sink = Chunked { bytes: Vec::new(), position: 0, chunk: 3 };
    assert_eq!(
        write_available(&mut sink, b"abcdefgh").unwrap(),
        Drained { written: 8, refused: false }
    );
    assert_eq!(sink.bytes, b"abcdefgh".to_vec());
    assert!(sink.is_seekable());
}

#[test]
fn write_available_overwrites_at_the_position() {
    let mut sink = Chunked { bytes: b"0123456789".to_vec(), position: 0, chunk: 4 };
    sink.seek(SeekFrom::Start(2)).unwrap();
    assert_eq!(
        write_available(&mut sink, b"xyz").unwrap(),
        Drained { written: 3, refused: false }
    );
    assert_eq!(sink.bytes, b"01xyz56789".to_vec());
    assert_eq!(sink.tell().unwrap(), 5);
}

#[test]
fn write_available_stops_when_the_sink_takes_nothing() {
    let mut sink = Chunked { bytes: Vec::new(), position: 0, chunk: 0 };
    assert_eq!(
        write_available(&mut sink, b"abc").unwrap(),
        Drained { written: 0, refused: true }
    );
    assert!(sink.bytes.is_empty());
}

/// A sink that refuses every call.
struct Refusing;

impl ByteSink for Refusing {
    fn write(&mut self, _buf: &[u8]) -> io::Result<usize> {
        Err(io::Error::other("refused"))
    }

    fn seek(&mut self, _pos: SeekFrom) -> io::Result<u64> {
        Err(io::Error::other("refused"))
    }

    fn tell(&mut self) -> io::Result<u64> {
        Err(io::Error::other("refused"))
    }
}

#[test]
fn empty_write_asks_nothing_of_the_sink() {
    let mut sink = Refusing;
    assert_eq!(
        write_available(&mut sink, &[]).unwrap(),
        Drained { written: 0, refused: false }
    );
    assert!(write_available(&mut sink, &[1]).is_err());
    assert!(sink.is_seekable());
}

#[test]
fn drain_steps_grow_or_stop() {
    assert_eq!(drain_step(0, 0, 5), None);
    assert_eq!(drain_step(2, 0, 5), None);
    assert_eq!(drain_step(2, 3, 5), Some(5));
    assert_eq!(drain_step(0, 1, 5), Some(1));
}

/// A sink that takes two bytes, then nothing.
struct TakesTwo {
    taken: Vec<u8>,
}

impl ByteSink for TakesTwo {
    fn write(&mut self, buf: &[u8]) -> io::Result<usize> {
        let n = buf.len().min(2 - self.taken.len());
        self.taken.extend_from_slice(&buf[..n]);
        Ok(n)
    }

    fn seek(&mut self, _pos: SeekFrom) -> io::Result<u64> {
        Err(io::Error::other("refused"))
    }

    fn tell(&mut self) -> io::Result<u64> {
        Ok(self.taken.len() as u64)
    }
}

#[test]
fn drain_stops_on_a_refusal_partway() {
    let mut sink = TakesTwo { taken: Vec::new() };
    assert_eq!(
        write_available(&mut sink, b"abcde").unwrap(),
        Drained { written: 2, refused: true }
    );
    assert_eq!(sink.taken, b"ab".to_vec());
}
