//! The capabilities that a transfer needs from its surroundings: a source of bytes, a sink for
//! bytes and a local file; and two loops over them, an exact read and a copy to the end.

use vstd::prelude::*;

verus! {

/// The most bytes that one step of a copy moves.
pub const CHUNK_LEN: usize = 8192;

/// Why a source, a sink or a file gave up.
#[derive(Debug, Clone, Copy, PartialEq, Eq, Structural)]
pub enum StreamError {
    /// The stream ended before the bytes that were asked for had arrived.
    UnexpectedEof,
    /// Any other failure of the transport or of the file system.
    Failed,
}

/// The readable half of a stream, or a file opened for reading.
pub trait ByteSource {
    /// The bytes that the source has yet to deliver, in order, up to its end.
    spec fn pending(&self) -> Seq<u8>;

    /// Whether reading from this source cannot fail.
    spec fn never_fails(&self) -> bool;

    /// Reads at most `limit` of the pending bytes, at least one if `limit` is positive and the
    /// source has not ended. An empty result for a positive `limit` means the end of the source.
    fn read(&mut self, limit: usize) -> (result: Result<Vec<u8>, StreamError>)
        ensures
            match result {
                Ok(bytes) => {
                    &&& bytes@.len() <= limit
                    &&& bytes@.len() <= old(self).pending().len()
                    &&& bytes@ == old(self).pending().take(bytes@.len() as int)
                    &&& final(self).pending() == old(self).pending().skip(bytes@.len() as int)
                    &&& bytes@.len() == 0 ==> limit == 0 || old(self).pending().len() == 0
                    &&& final(self).never_fails() == old(self).never_fails()
                },
                Err(_) => !old(self).never_fails(),
            },
    ;
}

/// The writable half of a stream, or a file opened for writing.
pub trait ByteSink {
    /// The bytes that the sink has taken so far, in order.
    spec fn written(&self) -> Seq<u8>;

    /// Whether writing to this sink cannot fail.
    spec fn always_accepts(&self) -> bool;

    /// Appends all of `bytes`.
    fn write_all(&mut self, bytes: &[u8]) -> (result: Result<(), StreamError>)
        ensures
            result is Ok ==> final(self).written() == old(self).written() + bytes@,
            result is Ok ==> final(self).always_accepts() == old(self).always_accepts(),
            result is Err ==> !old(self).always_accepts(),
    ;

    /// Hands on what the sink may have held back. The bytes taken stay as they are.
    fn flush(&mut self) -> (result: Result<(), StreamError>)
        ensures
            result is Ok ==> final(self).written() == old(self).written(),
            result is Ok ==> final(self).always_accepts() == old(self).always_accepts(),
            result is Err ==> !old(self).always_accepts(),
    ;
}

/// A local file that its caller has opened: readable from its start, with the length that its
/// metadata reports, and writable once it has been emptied.
pub trait LocalFile: ByteSource + ByteSink {
    /// The length that the file's metadata reports. Nothing ties it to the bytes that the file
    /// goes on to deliver: the file may change in between.
    spec fn reported_length(&self) -> u64;

    /// Asks the metadata for the file's length, without reading the file.
    fn length(&self) -> (len: u64)
        ensures
            len == self.reported_length(),
    ;

    /// Empties the file, so that what is written next is all that it holds.
    fn truncate(&mut self) -> (result: Result<(), StreamError>)
        ensures
            result is Ok ==> final(self).written() == Seq::<u8>::empty(),
            result is Ok ==> final(self).always_accepts() == old(self).always_accepts(),
            result is Err ==> !old(self).always_accepts(),
    ;
}

/// Reads exactly `count` bytes, in as many steps as the source takes.
///
/// Fails with `UnexpectedEof` where the source ends before `count` bytes; any other failure is
/// the source's own.
pub fn read_exact<R: ByteSource>(source: &mut R, count: usize) -> (result: Result<
    Vec<u8>,
    StreamError,
>)
    ensures
        match result {
            Ok(bytes) => {
                &&& count <= old(source).pending().len()
                &&& bytes@ == old(source).pending().take(count as int)
                &&& final(source).pending() == old(source).pending().skip(count as int)
                &&& final(source).never_fails() == old(source).never_fails()
            },
            Err(error) => {
                ||| !old(source).never_fails()
                ||| error == StreamError::UnexpectedEof && old(source).pending().len() < count
            },
        },
        old(source).pending().len() < count ==> result is Err,
{
    let ghost start = source.pending();
    let mut bytes: Vec<u8> = Vec::new();
    while bytes.len() < count
        invariant
            bytes@.len() <= count,
            bytes@.len() <= start.len(),
            bytes@ == start.take(bytes@.len() as int),
            source.pending() == start.skip(bytes@.len() as int),
            source.never_fails() == old(source).never_fails(),
            start == old(source).pending(),
        decreases count - bytes@.len(),
    {
        let chunk = source.read(count - bytes.len())?;
        if chunk.len() == 0 {
            return Err(StreamError::UnexpectedEof);
        }
        let ghost before = bytes@;
        bytes.extend_from_slice(chunk.as_slice());
        assert(bytes@ =~= start.take(bytes@.len() as int));
        assert(source.pending() =~= start.skip(bytes@.len() as int));
    }
    Ok(bytes)
}

/// Copies the source into the sink until the source ends, then flushes the sink. Returns the
/// number of bytes copied.
///
/// A source that holds more bytes than a `u64` counts makes the copy fail.
pub fn copy<R: ByteSource, W: ByteSink>(source: &mut R, sink: &mut W) -> (result: Result<
    u64,
    StreamError,
>)
    ensures
        match result {
            Ok(copied) => {
                &&& copied == old(source).pending().len()
                &&& final(source).pending() == Seq::<u8>::empty()
                &&& final(sink).written() == old(sink).written() + old(source).pending()
                &&& final(source).never_fails() == old(source).never_fails()
                &&& final(sink).always_accepts() == old(sink).always_accepts()
            },
            Err(_) => {
                ||| !old(source).never_fails()
                ||| !old(sink).always_accepts()
                ||| old(source).pending().len() > u64::MAX
            },
        },
{
    let ghost start = source.pending();
    let ghost taken = sink.written();
    let mut copied: u64 = 0;
    loop
        invariant
            start == old(source).pending(),
            taken == old(sink).written(),
            copied <= start.len(),
            source.pending() == start.skip(copied as int),
            sink.written() == taken + start.take(copied as int),
            source.never_fails() == old(source).never_fails(),
            sink.always_accepts() == old(sink).always_accepts(),
        decreases start.len() - copied,
    {
        let chunk = match source.read(CHUNK_LEN) {
            Ok(chunk) => chunk,
            Err(error) => {
                return Err(error);
            },
        };
        if chunk.len() == 0 {
            match sink.flush() {
                Ok(()) => {},
                Err(error) => {
                    return Err(error);
                },
            }
            assert(start.skip(copied as int) =~= Seq::<u8>::empty());
            assert(start.take(copied as int) =~= start);
            return Ok(copied);
        }
        if chunk.len() as u64 > u64::MAX - copied {
            return Err(StreamError::Failed);
        }
        match sink.write_all(chunk.as_slice()) {
            Ok(()) => {},
            Err(error) => {
                return Err(error);
            },
        }
        let ghost before = copied;
        copied = copied + chunk.len() as u64;
        assert(start.take(copied as int) =~= start.take(before as int) + chunk@);
        assert(source.pending() =~= start.skip(copied as int));
    }
}

} // verus!
