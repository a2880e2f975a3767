//! The bounded reader: it owns a source and hands out only the next declared bytes of it.

use crate::stream::{read_exact, ByteSink, ByteSource, StreamError, CHUNK_LEN};
use vstd::prelude::*;

verus! {

/// A reader that is capped at a number of bytes.
///
/// While bytes remain it is active: a read takes exactly the smaller of what is asked for and
/// what remains from the source it owns. Once nothing remains it is exhausted: every read
/// reports the end of the stream and leaves the source alone, whatever the source still holds.
pub struct ReadExact<R> {
    read: R,
    remaining: usize,
}

impl<R> ReadExact<R> {
    /// The source that the reader owns.
    pub closed spec fn source(&self) -> R {
        self.read
    }

    /// How many bytes the reader may still take from its source.
    pub closed spec fn budget(&self) -> nat {
        self.remaining as nat
    }

    /// How many bytes a read for up to `limit` bytes takes from the source.
    pub open spec fn request(&self, limit: nat) -> nat {
        if limit <= self.budget() {
            limit
        } else {
            self.budget()
        }
    }

    /// Wraps `read` in a reader that is capped at `bytes` bytes.
    pub fn new(read: R, bytes: usize) -> (reader: Self)
        ensures
            reader.source() == read,
            reader.budget() == bytes,
    {
        Self { read, remaining: bytes }
    }

    /// Gives the source back, at whatever position the reads have left it.
    pub fn into_inner(self) -> (read: R)
        ensures
            read == self.source(),
    {
        self.read
    }

    /// Lends the source, for a caller that performs the planned read itself.
    pub fn get_mut(&mut self) -> (read: &mut R)
        ensures
            *read == old(self).source(),
            final(self).source() == *final(read),
            final(self).budget() == old(self).budget(),
    {
        &mut self.read
    }

    /// The number of bytes that the reader may still take.
    pub fn remaining(&self) -> (bytes: usize)
        ensures
            bytes == self.budget(),
    {
        self.remaining
    }

    /// Whether the reader has handed out all its bytes.
    pub fn is_exhausted(&self) -> (exhausted: bool)
        ensures
            exhausted <==> self.budget() == 0,
    {
        self.remaining == 0
    }

    /// Decides a read for up to `limit` bytes: how many bytes are to be read, exactly, from
    /// the source. Zero means that the read reports no bytes without touching the source.
    pub fn plan(&self, limit: usize) -> (bytes: usize)
        ensures
            bytes == self.request(limit as nat),
    {
        if limit <= self.remaining {
            limit
        } else {
            self.remaining
        }
    }

    /// Records that `bytes` bytes were read from the source. A count above what remains is
    /// refused, and the reader stays as it is.
    pub fn record(&mut self, bytes: usize) -> (accepted: bool)
        ensures
            accepted <==> bytes <= old(self).budget(),
            accepted ==> final(self).budget() == old(self).budget() - bytes,
            !accepted ==> final(self).budget() == old(self).budget(),
            final(self).source() == old(self).source(),
    {
        if bytes <= self.remaining {
            self.remaining = self.remaining - bytes;
            true
        } else {
            false
        }
    }
}

impl<R: ByteSource> ReadExact<R> {
    /// Reads up to `limit` bytes: exactly the smaller of `limit` and what remains.
    ///
    /// Where that is zero, the read returns no bytes and leaves the source untouched. Else it
    /// fails unless the source supplies all of them, and on failure the budget stays.
    pub fn read(&mut self, limit: usize) -> (result: Result<Vec<u8>, StreamError>)
        ensures
            match result {
                Ok(bytes) => {
                    let count = old(self).request(limit as nat) as int;
                    &&& count <= old(self).source().pending().len()
                    &&& bytes@ == old(self).source().pending().take(count)
                    &&& final(self).source().pending() == old(self).source().pending().skip(count)
                    &&& final(self).budget() == old(self).budget() - count
                    &&& final(self).source().never_fails() == old(self).source().never_fails()
                },
                Err(error) => {
                    &&& final(self).budget() == old(self).budget()
                    &&& {
                        ||| !old(self).source().never_fails()
                        ||| error == StreamError::UnexpectedEof && old(self).source().pending().len()
                            < old(self).request(limit as nat)
                    }
                },
            },
            old(self).request(limit as nat) == 0 ==> result is Ok && *final(self) == *old(self),
            old(self).source().pending().len() < old(self).request(limit as nat) ==> result is Err,
    {
        let bytes = self.plan(limit);
        if bytes == 0 {
            assert(self.read.pending().take(0) =~= Seq::<u8>::empty());
            assert(self.read.pending().skip(0) =~= self.read.pending());
            return Ok(Vec::new());
        }
        let chunk = read_exact(&mut self.read, bytes)?;
        self.remaining = self.remaining - bytes;
        Ok(chunk)
    }

    /// Copies into `sink` until the reader reports the end of the stream, then flushes the
    /// sink: all the bytes that remained, and none of what the source holds behind them.
    pub fn copy_to<W: ByteSink>(&mut self, sink: &mut W) -> (result: Result<u64, StreamError>)
        ensures
            match result {
                Ok(copied) => {
                    let count = old(self).budget() as int;
                    &&& copied == count
                    &&& count <= old(self).source().pending().len()
                    &&& final(sink).written() == old(sink).written() + old(
                        self,
                    ).source().pending().take(count)
                    &&& final(self).source().pending() == old(self).source().pending().skip(count)
                    &&& final(self).budget() == 0
                    &&& final(self).source().never_fails() == old(self).source().never_fails()
                    &&& final(sink).always_accepts() == old(sink).always_accepts()
                },
                Err(error) => {
                    ||| !old(self).source().never_fails()
                    ||| !old(sink).always_accepts()
                    ||| error == StreamError::UnexpectedEof && old(self).source().pending().len()
                        < old(self).budget()
                },
            },
            old(self).source().pending().len() < old(self).budget() ==> result is Err,
    {
        let ghost start = self.read.pending();
        let ghost taken = sink.written();
        let ghost total = self.remaining as int;
        let mut copied: u64 = 0;
        loop
            invariant
                start == old(self).source().pending(),
                taken == old(sink).written(),
                total == old(self).budget(),
                copied + self.budget() == total,
                copied <= start.len(),
                self.source().pending() == start.skip(copied as int),
                sink.written() == taken + start.take(copied as int),
                self.source().never_fails() == old(self).source().never_fails(),
                sink.always_accepts() == old(sink).always_accepts(),
            decreases self.budget(),
        {
            let chunk = match self.read(CHUNK_LEN) {
                Ok(chunk) => chunk,
                Err(error) => {
                    return Err(error);
                },
            };
            if chunk.len() == 0 {
                match sink.flush() {
                    Ok(()) => {},
                    Err(error) => {
                        return Err(error);
                    },
                }
                return Ok(copied);
            }
            match sink.write_all(chunk.as_slice()) {
                Ok(()) => {},
                Err(error) => {
                    return Err(error);
                },
            }
            let ghost before = copied;
            copied = copied + chunk.len() as u64;
            assert(start.take(copied as int) =~= start.take(before as int) + chunk@);
            assert(self.source().pending() =~= start.skip(copied as int));
        }
    }
}

} // verus!
