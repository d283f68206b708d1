use radiofm::source::caching::{CachingReader, SeekError, SeekFrom};
use std::io::{Cursor, Read};

/// `std::io::Read` over the cache, as a decoder would use it.
struct Reader<R: Read>(CachingReader<R>);

impl<R: Read> Read for Reader<R> {
    fn read(&mut self, out: &mut [u8]) -> std::io::Result<usize> {
        self.0.read(out)
    }
}

/// A stream that hands out its bytes a few at a time.
struct Trickle {
    data: Vec<u8>,
    at: usize,
    step: usize,
}

impl Read for Trickle {
    fn read(&mut self, out: &mut [u8]) -> std::io::Result<usize> {
        let n = self.step.min(out.len()).min(self.data.len() - self.at);
        out[..n].copy_from_slice(&self.data[self.at..self.at + n]);
        self.at += n;
        Ok(n)
    }
}

/// A stream that fails on every read.
struct Broken;

impl Read for Broken {
    fn read(&mut self, _out: &mut [u8]) -> std::io::Result<usize> {
        Err(std::io::Error::new(std::io::ErrorKind::ConnectionReset, "gone"))
    }
}

#[test]
fn reads_sequentially() {
    let mut r = Reader(CachingReader::new(Cursor::new(b"hello world".to_vec())));
    let mut out = [0u8; 5];
    r.read_exact(&mut out).unwrap();
    assert_eq!(&out, b"hello");
}

#[test]
fn seek_backward_then_forward() {
    let mut r = Reader(CachingReader::new(Cursor::new(b"0123456789".to_vec())));
    let mut out = [0u8; 4];
    r.read_exact(&mut out).unwrap();
    assert_eq!(&out, b"0123");

    r.0.seek(SeekFrom::Start(0)).unwrap();
    r.read_exact(&mut out).unwrap();
    assert_eq!(&out, b"0123");

    r.0.seek(SeekFrom::Start(6)).unwrap();
    r.read_exact(&mut out).unwrap();
    assert_eq!(&out, b"6789");
}

#[test]
fn seek_end_is_rejected() {
    let mut r = CachingReader::new(Cursor::new(b"abc".to_vec()));
    assert!(r.seek(SeekFrom::End(0)).is_err());
}

#[test]
fn seek_end_is_refused_as_from_end() {
    let mut r = CachingReader::new(Cursor::new(b"abc".to_vec()));
    assert!(matches!(r.seek(SeekFrom::End(-1)), Err(SeekError::FromEnd)));
    assert_eq!(r.position(), 0);
}

#[test]
fn seek_before_start_is_rejected() {
    let mut r = CachingReader::new(Cursor::new(b"abc".to_vec()));
    let mut out = [0u8; 2];
    assert_eq!(r.read(&mut out).unwrap(), 2);
    assert!(matches!(r.seek(SeekFrom::Current(-3)), Err(SeekError::BeforeStart)));
    assert_eq!(r.position(), 2);
    // Nothing moved: the next byte is still 'c'.
    let mut one = [0u8; 1];
    assert_eq!(r.read(&mut one).unwrap(), 1);
    assert_eq!(&one, b"c");
}

#[test]
fn seek_start_beyond_i64_is_rejected() {
    let mut r = CachingReader::new(Cursor::new(b"abc".to_vec()));
    assert!(matches!(r.seek(SeekFrom::Start(u64::MAX)), Err(SeekError::BeforeStart)));
}

#[test]
fn seek_current_moves_relative() {
    let mut r = CachingReader::new(Cursor::new(b"0123456789".to_vec()));
    assert_eq!(r.seek(SeekFrom::Current(3)).unwrap(), 3);
    assert_eq!(r.seek(SeekFrom::Current(-1)).unwrap(), 2);
    let mut out = [0u8; 3];
    assert_eq!(r.read(&mut out).unwrap(), 3);
    assert_eq!(&out, b"234");
}

#[test]
fn seek_past_end_stops_at_end() {
    let mut r = CachingReader::new(Cursor::new(b"abc".to_vec()));
    assert_eq!(r.seek(SeekFrom::Start(100)).unwrap(), 3);
    let mut out = [9u8; 4];
    assert_eq!(r.read(&mut out).unwrap(), 0);
    assert_eq!(out, [9u8; 4]);
}

#[test]
fn short_read_only_at_end_of_stream() {
    let mut r = CachingReader::new(Cursor::new(b"abcde".to_vec()));
    let mut out = [0u8; 8];
    assert_eq!(r.read(&mut out).unwrap(), 5);
    assert_eq!(&out[..5], b"abcde");
    assert_eq!(&out[5..], &[0u8; 3]);
}

#[test]
fn reads_span_several_stream_chunks() {
    let data: Vec<u8> = (0..50u8).collect();
    let mut r = CachingReader::new(Trickle { data: data.clone(), at: 0, step: 7 });
    let mut out = [0u8; 30];
    assert_eq!(r.read(&mut out).unwrap(), 30);
    assert_eq!(&out[..], &data[..30]);
    assert_eq!(r.seek(SeekFrom::Start(45)).unwrap(), 45);
    let mut rest = [0u8; 10];
    assert_eq!(r.read(&mut rest).unwrap(), 5);
    assert_eq!(&rest[..5], &data[45..]);
}

#[test]
fn fill_to_caches_without_moving() {
    let mut r = CachingReader::new(Cursor::new(b"0123456789".to_vec()));
    r.fill_to(4).unwrap();
    let mut out = [0u8; 2];
    assert_eq!(r.read(&mut out).unwrap(), 2);
    assert_eq!(&out, b"01");
}

#[test]
fn stream_errors_pass_through() {
    let mut r = CachingReader::new(Broken);
    let mut out = [0u8; 4];
    let e = r.read(&mut out).unwrap_err();
    assert_eq!(e.kind(), std::io::ErrorKind::ConnectionReset);
    assert!(r.fill_to(1).is_err());
    // Position 0 needs no read, so it is reached without error.
    assert_eq!(r.seek(SeekFrom::Start(0)).unwrap(), 0);
}

#[test]
fn seek_within_cache_is_a_move() {
    // A stream that would fail after its first chunk shows no further read happens.
    let mut r = CachingReader::new(Trickle { data: b"abcdefgh".to_vec(), at: 0, step: 8 });
    let mut out = [0u8; 8];
    assert_eq!(r.read(&mut out).unwrap(), 8);
    assert_eq!(r.seek(SeekFrom::Start(2)).unwrap(), 2);
    assert_eq!(r.seek(SeekFrom::Start(8)).unwrap(), 8);
    assert_eq!(r.seek(SeekFrom::Start(5)).unwrap(), 5);
}

#[test]
fn reread_gives_same_bytes() {
    let data: Vec<u8> = (0..40u8).collect();
    let mut r = CachingReader::new(Trickle { data: data.clone(), at: 0, step: 3 });
    assert_eq!(r.seek(SeekFrom::Start(10)).unwrap(), 10);
    let mut first = [0u8; 12];
    assert_eq!(r.read(&mut first).unwrap(), 12);
    let mut later = [0u8; 9];
    assert_eq!(r.read(&mut later).unwrap(), 9);
    assert_eq!(r.seek(SeekFrom::Start(10)).unwrap(), 10);
    let mut again = [0u8; 12];
    assert_eq!(r.read(&mut again).unwrap(), 12);
    assert_eq!(first, again);
}

#[test]
fn seek_reports_stream_errors() {
    let mut r = CachingReader::new(Broken);
    match r.seek(SeekFrom::Start(5)) {
        Err(SeekError::Stream(e)) => assert_eq!(e.kind(), std::io::ErrorKind::ConnectionReset),
        other => panic!("unexpected {other:?}"),
    }
}

#[test]
fn absorbed_chunks_are_read_back_in_order() {
    let mut r = CachingReader::new(Cursor::new(Vec::new()));
    r.absorb_chunk(&b"abcXX".to_vec(), 3);
    r.absorb_chunk(&b"def".to_vec(), 3);
    let mut out = [0u8; 4];
    assert_eq!(r.read(&mut out).unwrap(), 4);
    assert_eq!(&out, b"abcd");
    assert_eq!(r.position(), 4);
    r.absorb_chunk(&b"zzz".to_vec(), 0);
    let mut rest = [0u8; 8];
    assert_eq!(r.read(&mut rest).unwrap(), 2);
    assert_eq!(&rest[..2], b"ef");
}
