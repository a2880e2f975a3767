use std::path::PathBuf;

use file_transfer::memory::MemoryBuffer;
use file_transfer::read_exact::ReadExact;
use file_transfer::stream::{copy, read_exact, ByteSink, ByteSource, LocalFile, StreamError};
use file_transfer::transfer::{
    pull_file, push_file, FileTransferCommand, PullFileArgs, TransferError,
};

fn breaking(bytes: &[u8], operations: usize) -> MemoryBuffer {
    MemoryBuffer::failing_after(bytes.to_vec(), operations)
}

#[test]
fn buffer_with_credit_fails_once_it_is_spent() {
    let mut buffer = breaking(&[1, 2, 3, 4], 3);
    assert_eq!(buffer.read(1), Ok(vec![1]));
    assert_eq!(buffer.write_all(&[5]), Ok(()));
    assert_eq!(buffer.flush(), Ok(()));
    assert_eq!(buffer.read(1), Err(StreamError::Failed));
    assert_eq!(buffer.write_all(&[6]), Err(StreamError::Failed));
    assert_eq!(buffer.flush(), Err(StreamError::Failed));
    assert_eq!(buffer.truncate(), Err(StreamError::Failed));
    assert_eq!(buffer.unread(), 4);
    assert_eq!(buffer.into_bytes(), vec![1, 2, 3, 4, 5]);
}

#[test]
fn read_exact_hands_on_the_failure_of_the_source() {
    let mut source = breaking(&[1, 2, 3], 0);
    assert_eq!(read_exact(&mut source, 3), Err(StreamError::Failed));
}

#[test]
fn bounded_reader_never_reaches_the_failure_behind_the_frame() {
    let mut reader = ReadExact::new(breaking(&[1, 2, 3, 4], 1), 3);
    let mut sink = MemoryBuffer::new();
    assert_eq!(reader.copy_to(&mut sink), Ok(3));
    assert_eq!(sink.into_bytes(), vec![1, 2, 3]);
    assert_eq!(reader.read(4), Ok(vec![]));
}

#[test]
fn bounded_reader_keeps_its_budget_when_the_source_fails() {
    let mut reader = ReadExact::new(breaking(&[1, 2], 0), 2);
    assert_eq!(reader.read(2), Err(StreamError::Failed));
    assert_eq!(reader.remaining(), 2);
}

#[test]
fn copy_hands_on_the_failure_of_the_source() {
    let mut source = breaking(&[1, 2], 1);
    let mut sink = MemoryBuffer::new();
    assert_eq!(copy(&mut source, &mut sink), Err(StreamError::Failed));
}

#[test]
fn push_hands_on_the_failure_of_the_sink() {
    let mut source = MemoryBuffer::from_bytes(vec![1, 2, 3]);
    let mut sink = breaking(&[], 1);
    assert_eq!(
        push_file(&mut source, &mut sink),
        Err(TransferError::Stream(StreamError::Failed))
    );
    assert_eq!(sink.into_bytes(), vec![0, 0, 0, 0, 0, 0, 0, 3]);
}

#[test]
fn pull_hands_on_the_failure_of_the_source() {
    let mut destination = MemoryBuffer::new();
    let incoming = breaking(&[0, 0, 0, 0, 0, 0, 0, 2, 7, 9], 1);
    assert_eq!(
        pull_file(&mut destination, incoming).map(|(bytes, _)| bytes),
        Err(TransferError::Stream(StreamError::Failed))
    );
}

#[test]
fn pull_reports_a_signal_that_could_not_be_sent() {
    let command = FileTransferCommand::Pull(PullFileArgs { output_file: PathBuf::from("out") });
    let mut destination = MemoryBuffer::new();
    let mut back = breaking(&[], 0);
    let incoming = MemoryBuffer::from_bytes(vec![0, 0, 0, 0, 0, 0, 0, 1, 9]);
    assert_eq!(
        command.perform(&mut destination, incoming, &mut back).map(|(bytes, _)| bytes),
        Err(TransferError::Stream(StreamError::Failed))
    );
    assert_eq!(destination.into_bytes(), vec![9]);
}

#[test]
fn pull_hands_on_the_failure_of_the_destination() {
    let mut destination = breaking(&[5, 5], 0);
    let incoming = MemoryBuffer::from_bytes(vec![0, 0, 0, 0, 0, 0, 0, 1, 9]);
    assert_eq!(
        pull_file(&mut destination, incoming).map(|(bytes, _)| bytes),
        Err(TransferError::Stream(StreamError::Failed))
    );
    assert_eq!(destination.into_bytes(), vec![5, 5]);
}
