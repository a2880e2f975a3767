//! A byte buffer in memory that serves as a stream half or as a local file.

use crate::stream::{ByteSink, ByteSource, LocalFile, StreamError};
use vstd::prelude::*;

verus! {

/// Bytes held in memory, with a read position.
///
/// As a source it delivers the bytes from its position on; as a sink it appends; as a file it
/// reports a length and can be emptied. It fails only where it was made to: a buffer with a
/// credit fails every operation once the credit is spent. A buffer made in pieces delivers no
/// more than one piece by each read, as a stream does whose bytes arrive in packets.
pub struct MemoryBuffer {
    data: Vec<u8>,
    position: usize,
    reported: u64,
    credit: Option<usize>,
    piece: Option<usize>,
}

impl MemoryBuffer {
    /// All the bytes that the buffer holds, read or not.
    pub closed spec fn contents(&self) -> Seq<u8> {
        self.data@
    }

    /// How many of the bytes have been read.
    pub closed spec fn consumed(&self) -> nat {
        if self.position <= self.data@.len() {
            self.position as nat
        } else {
            self.data@.len()
        }
    }

    /// How many more operations succeed before the buffer fails; `None` where it never fails.
    pub closed spec fn credit(&self) -> Option<usize> {
        self.credit
    }

    /// The most bytes that one read delivers; `None` where a read delivers all it is asked for.
    pub closed spec fn piece(&self) -> Option<usize> {
        self.piece
    }

    /// How many bytes a read for up to `limit` bytes delivers where `rest` bytes are unread:
    /// the smallest of the limit, the rest and the piece, a piece of zero counting as one.
    pub open spec fn delivered(limit: nat, rest: nat, piece: Option<usize>) -> nat {
        let wanted = if limit <= rest {
            limit
        } else {
            rest
        };
        match piece {
            Some(size) if size == 0 && wanted >= 1 => 1,
            Some(size) if size < wanted => size as nat,
            _ => wanted,
        }
    }

    /// The credit once one more operation has succeeded.
    pub open spec fn spent(credit: Option<usize>) -> Option<usize> {
        match credit {
            Some(operations) if operations > 0 => Some((operations - 1) as usize),
            _ => credit,
        }
    }

    /// A buffer that holds nothing and never fails.
    pub fn new() -> (buffer: Self)
        ensures
            buffer.contents() == Seq::<u8>::empty(),
            buffer.consumed() == 0,
            buffer.reported_length() == 0,
            buffer.credit() is None,
            buffer.piece() is None,
    {
        MemoryBuffer { data: Vec::new(), position: 0, reported: 0, credit: None, piece: None }
    }

    /// A buffer that holds `data`, all of it unread, reports its true length and never fails.
    pub fn from_bytes(data: Vec<u8>) -> (buffer: Self)
        ensures
            buffer.contents() == data@,
            buffer.consumed() == 0,
            buffer.reported_length() == data@.len(),
            buffer.credit() is None,
            buffer.piece() is None,
    {
        let reported = data.len() as u64;
        MemoryBuffer { data, position: 0, reported, credit: None, piece: None }
    }

    /// A buffer that holds `data` but reports the length `reported`, as a file does that
    /// changed after its metadata was read.
    pub fn with_reported_length(data: Vec<u8>, reported: u64) -> (buffer: Self)
        ensures
            buffer.contents() == data@,
            buffer.consumed() == 0,
            buffer.reported_length() == reported,
            buffer.credit() is None,
            buffer.piece() is None,
    {
        MemoryBuffer { data, position: 0, reported, credit: None, piece: None }
    }

    /// A buffer that holds `data` and fails every operation after the first `operations`
    /// reads, writes, flushes and truncations.
    pub fn failing_after(data: Vec<u8>, operations: usize) -> (buffer: Self)
        ensures
            buffer.contents() == data@,
            buffer.consumed() == 0,
            buffer.reported_length() == data@.len(),
            buffer.credit() == Some(operations),
            buffer.piece() is None,
    {
        let reported = data.len() as u64;
        MemoryBuffer { data, position: 0, reported, credit: Some(operations), piece: None }
    }

    /// A buffer that holds `data`, never fails, and delivers at most `piece` bytes by each
    /// read, though at least one.
    pub fn in_pieces(data: Vec<u8>, piece: usize) -> (buffer: Self)
        ensures
            buffer.contents() == data@,
            buffer.consumed() == 0,
            buffer.reported_length() == data@.len(),
            buffer.credit() is None,
            buffer.piece() == Some(piece),
    {
        let reported = data.len() as u64;
        MemoryBuffer { data, position: 0, reported, credit: None, piece: Some(piece) }
    }

    /// The number of bytes that have not been read yet.
    pub fn unread(&self) -> (count: usize)
        ensures
            count == self.pending().len(),
    {
        if self.position <= self.data.len() {
            self.data.len() - self.position
        } else {
            0
        }
    }

    /// Gives up the buffer for all the bytes that it holds.
    pub fn into_bytes(self) -> (data: Vec<u8>)
        ensures
            data@ == self.contents(),
    {
        self.data
    }

    /// Spends one operation of the credit; tells whether there was one to spend.
    fn spend(&mut self) -> (granted: bool)
        ensures
            granted <==> old(self).credit() != Some(0usize),
            !granted ==> *final(self) == *old(self),
            final(self).credit() == Self::spent(old(self).credit()),
            final(self).contents() == old(self).contents(),
            final(self).consumed() == old(self).consumed(),
            final(self).reported_length() == old(self).reported_length(),
            final(self).piece() == old(self).piece(),
    {
        match self.credit {
            None => true,
            Some(operations) => {
                if operations == 0 {
                    false
                } else {
                    self.credit = Some(operations - 1);
                    true
                }
            },
        }
    }
}

impl ByteSource for MemoryBuffer {
    closed spec fn pending(&self) -> Seq<u8> {
        self.data@.skip(self.consumed() as int)
    }

    open spec fn never_fails(&self) -> bool {
        self.credit() is None
    }

    fn read(&mut self, limit: usize) -> (result: Result<Vec<u8>, StreamError>)
        ensures
            result is Ok <==> old(self).credit() != Some(0usize),
            result is Err ==> result == Err::<Vec<u8>, StreamError>(StreamError::Failed)
                && *final(self) == *old(self),
            result is Ok ==> result->Ok_0@.len() == Self::delivered(
                limit as nat,
                old(self).pending().len(),
                old(self).piece(),
            ),
            final(self).contents() == old(self).contents(),
            result is Ok ==> final(self).consumed() == old(self).consumed() + result->Ok_0@.len(),
            final(self).reported_length() == old(self).reported_length(),
            final(self).credit() == Self::spent(old(self).credit()),
            final(self).piece() == old(self).piece(),
    {
        if !self.spend() {
            return Err(StreamError::Failed);
        }
        let len = self.data.len();
        let start = if self.position <= len {
            self.position
        } else {
            len
        };
        let rest = len - start;
        let wanted = if limit <= rest {
            limit
        } else {
            rest
        };
        let count = match self.piece {
            Some(size) => {
                if size == 0 && wanted >= 1 {
                    1
                } else if size < wanted {
                    size
                } else {
                    wanted
                }
            },
            None => wanted,
        };
        let mut bytes: Vec<u8> = Vec::new();
        bytes.extend_from_slice(
            vstd::slice::slice_subrange(self.data.as_slice(), start, start + count),
        );
        assert(bytes@ =~= old(self).pending().take(count as int));
        self.position = start + count;
        assert(self.pending() =~= old(self).pending().skip(count as int));
        Ok(bytes)
    }
}

impl ByteSink for MemoryBuffer {
    closed spec fn written(&self) -> Seq<u8> {
        self.data@
    }

    open spec fn always_accepts(&self) -> bool {
        self.credit() is None
    }

    fn write_all(&mut self, bytes: &[u8]) -> (result: Result<(), StreamError>)
        ensures
            result is Ok <==> old(self).credit() != Some(0usize),
            result is Err ==> result == Err::<(), StreamError>(StreamError::Failed) && *final(self)
                == *old(self),
            result is Ok ==> final(self).contents() == old(self).contents() + bytes@,
            final(self).consumed() == old(self).consumed(),
            final(self).reported_length() == old(self).reported_length(),
            final(self).credit() == Self::spent(old(self).credit()),
            final(self).piece() == old(self).piece(),
    {
        if !self.spend() {
            return Err(StreamError::Failed);
        }
        if self.position > self.data.len() {
            self.position = self.data.len();
        }
        self.data.extend_from_slice(bytes);
        Ok(())
    }

    fn flush(&mut self) -> (result: Result<(), StreamError>)
        ensures
            result is Ok <==> old(self).credit() != Some(0usize),
            result is Err ==> result == Err::<(), StreamError>(StreamError::Failed),
            final(self).contents() == old(self).contents(),
            final(self).consumed() == old(self).consumed(),
            final(self).reported_length() == old(self).reported_length(),
            final(self).credit() == Self::spent(old(self).credit()),
            final(self).piece() == old(self).piece(),
    {
        if self.spend() {
            Ok(())
        } else {
            Err(StreamError::Failed)
        }
    }
}

impl LocalFile for MemoryBuffer {
    closed spec fn reported_length(&self) -> u64 {
        self.reported
    }

    fn length(&self) -> (len: u64) {
        self.reported
    }

    fn truncate(&mut self) -> (result: Result<(), StreamError>)
        ensures
            result is Ok <==> old(self).credit() != Some(0usize),
            result is Err ==> result == Err::<(), StreamError>(StreamError::Failed) && *final(self)
                == *old(self),
            result is Ok ==> final(self).contents() == Seq::<u8>::empty(),
            result is Ok ==> final(self).consumed() == 0,
            result is Ok ==> final(self).reported_length() == 0,
            final(self).credit() == Self::spent(old(self).credit()),
            final(self).piece() == old(self).piece(),
    {
        if !self.spend() {
            return Err(StreamError::Failed);
        }
        self.position = 0;
        self.data.clear();
        self.reported = 0;
        Ok(())
    }
}

/// What a buffer has yet to deliver and what it has taken, in terms of what it holds.
pub proof fn lemma_buffer_views(buffer: MemoryBuffer)
    ensures
        buffer.consumed() <= buffer.contents().len(),
        buffer.written() == buffer.contents(),
        buffer.pending() == buffer.contents().skip(buffer.consumed() as int),
{
}

} // verus!
