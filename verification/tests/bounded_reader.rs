use file_transfer::memory::MemoryBuffer;
use file_transfer::read_exact::ReadExact;
use file_transfer::stream::{read_exact, ByteSource, StreamError};

fn source(bytes: &[u8]) -> MemoryBuffer {
    MemoryBuffer::from_bytes(bytes.to_vec())
}

#[test]
fn new_reader_holds_its_cap() {
    let reader = ReadExact::new(source(&[1, 2, 3]), 2);
    assert_eq!(reader.remaining(), 2);
    assert!(!reader.is_exhausted());
}

#[test]
fn reader_capped_at_zero_is_exhausted() {
    let mut reader = ReadExact::new(source(&[1, 2, 3]), 0);
    assert!(reader.is_exhausted());
    assert_eq!(reader.read(16), Ok(vec![]));
    assert_eq!(reader.into_inner().unread(), 3);
}

#[test]
fn into_inner_returns_the_source_untouched() {
    let reader = ReadExact::new(source(&[4, 5, 6]), 3);
    let mut inner = reader.into_inner();
    assert_eq!(inner.read(8), Ok(vec![4, 5, 6]));
}

#[test]
fn plan_is_the_smaller_of_limit_and_budget() {
    let reader = ReadExact::new((), 5);
    assert_eq!(reader.plan(3), 3);
    assert_eq!(reader.plan(5), 5);
    assert_eq!(reader.plan(9), 5);
    assert_eq!(reader.plan(0), 0);
}

#[test]
fn record_spends_the_budget() {
    let mut reader = ReadExact::new((), 5);
    assert!(reader.record(3));
    assert_eq!(reader.remaining(), 2);
    assert!(reader.record(2));
    assert_eq!(reader.remaining(), 0);
    assert!(reader.is_exhausted());
    assert_eq!(reader.plan(4), 0);
}

#[test]
fn record_refuses_more_than_remains() {
    let mut reader = ReadExact::new((), 5);
    assert!(!reader.record(6));
    assert_eq!(reader.remaining(), 5);
}

#[test]
fn get_mut_lends_the_source() {
    let mut reader = ReadExact::new(source(&[1, 2, 3]), 3);
    assert_eq!(reader.get_mut().read(1), Ok(vec![1]));
    assert_eq!(reader.remaining(), 3);
    assert_eq!(reader.into_inner().unread(), 2);
}

#[test]
fn read_takes_the_smaller_of_limit_and_budget() {
    let mut reader = ReadExact::new(source(&[10, 11, 12, 13, 14, 15]), 5);
    assert_eq!(reader.read(2), Ok(vec![10, 11]));
    assert_eq!(reader.remaining(), 3);
    assert_eq!(reader.read(100), Ok(vec![12, 13, 14]));
    assert_eq!(reader.remaining(), 0);
    assert_eq!(reader.read(100), Ok(vec![]));
    assert_eq!(reader.read(1), Ok(vec![]));
}

#[test]
fn read_of_zero_bytes_touches_nothing() {
    let mut reader = ReadExact::new(source(&[1, 2]), 2);
    assert_eq!(reader.read(0), Ok(vec![]));
    assert_eq!(reader.remaining(), 2);
    assert_eq!(reader.into_inner().unread(), 2);
}

#[test]
fn frame_isolation() {
    let payload: Vec<u8> = (0..20_000u32).map(|i| (i % 251) as u8).collect();
    let mut stream = payload.clone();
    stream.push(0xEE);
    let mut reader = ReadExact::new(MemoryBuffer::from_bytes(stream), payload.len());
    let mut sink = MemoryBuffer::new();
    assert_eq!(reader.copy_to(&mut sink), Ok(20_000));
    assert_eq!(sink.into_bytes(), payload);
    assert!(reader.is_exhausted());
    assert_eq!(reader.read(1), Ok(vec![]));
    let mut inner = reader.into_inner();
    assert_eq!(inner.unread(), 1);
    assert_eq!(inner.read(1), Ok(vec![0xEE]));
}

#[test]
fn short_read_is_rejected() {
    let mut reader = ReadExact::new(source(&[1, 2, 3]), 4);
    let mut sink = MemoryBuffer::new();
    assert_eq!(reader.copy_to(&mut sink), Err(StreamError::UnexpectedEof));
}

#[test]
fn short_single_read_is_rejected_and_keeps_the_budget() {
    let mut reader = ReadExact::new(source(&[1, 2, 3]), 4);
    assert_eq!(reader.read(4), Err(StreamError::UnexpectedEof));
    assert_eq!(reader.remaining(), 4);
}

#[test]
fn read_exact_takes_exactly_the_count() {
    let mut stream = source(&[1, 2, 3, 4]);
    assert_eq!(read_exact(&mut stream, 3), Ok(vec![1, 2, 3]));
    assert_eq!(stream.unread(), 1);
    assert_eq!(read_exact(&mut stream, 0), Ok(vec![]));
    assert_eq!(read_exact(&mut stream, 2), Err(StreamError::UnexpectedEof));
}

#[test]
fn buffer_in_pieces_delivers_piece_by_piece() {
    let mut stream = MemoryBuffer::in_pieces(vec![1, 2, 3, 4, 5], 2);
    assert_eq!(stream.read(10), Ok(vec![1, 2]));
    assert_eq!(stream.read(1), Ok(vec![3]));
    assert_eq!(stream.read(0), Ok(vec![]));
    assert_eq!(stream.read(10), Ok(vec![4, 5]));
    assert_eq!(stream.read(10), Ok(vec![]));
}

#[test]
fn buffer_in_pieces_of_zero_delivers_single_bytes() {
    let mut stream = MemoryBuffer::in_pieces(vec![1, 2], 0);
    assert_eq!(stream.read(10), Ok(vec![1]));
    assert_eq!(stream.read(10), Ok(vec![2]));
    assert_eq!(stream.read(10), Ok(vec![]));
}

#[test]
fn read_exact_gathers_the_pieces() {
    let mut stream = MemoryBuffer::in_pieces(vec![1, 2, 3, 4, 5, 6, 7], 3);
    assert_eq!(read_exact(&mut stream, 5), Ok(vec![1, 2, 3, 4, 5]));
    assert_eq!(stream.unread(), 2);
    assert_eq!(read_exact(&mut stream, 3), Err(StreamError::UnexpectedEof));
}

#[test]
fn bounded_reader_reads_exactly_over_pieces() {
    let mut reader = ReadExact::new(MemoryBuffer::in_pieces(vec![1, 2, 3, 4, 5, 6], 1), 4);
    assert_eq!(reader.read(3), Ok(vec![1, 2, 3]));
    assert_eq!(reader.read(3), Ok(vec![4]));
    assert_eq!(reader.read(3), Ok(vec![]));
    assert_eq!(reader.into_inner().unread(), 2);
}
