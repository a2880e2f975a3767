//! The two operations, push and pull, and the checks that guard them.

use crate::read_exact::ReadExact;
use crate::stream::{copy, read_exact, ByteSink, ByteSource, LocalFile, StreamError};
use crate::wire::{
    announced, decode_length, encode_length, frame, holds_frame, lemma_frame_round_trip,
    length_prefix, past_frame, payload, prefix_value, CLOSE, PREFIX_LEN,
};
use std::path::PathBuf;
use vstd::prelude::*;

verus! {

/// A path of the standard library: the commands carry one, and nothing here looks inside.
#[verifier::external_type_specification]
#[verifier::external_body]
pub struct ExPathBuf(std::path::PathBuf);

/// `Clone::clone` of the standard library's `PathBuf`: the copy is the same path.
pub assume_specification[ <std::path::PathBuf as std::clone::Clone>::clone ](
    path: &std::path::PathBuf,
) -> (cloned: std::path::PathBuf)
    ensures
        cloned == *path,
;

/// A breach of the protocol by the peer or by the local file.
#[derive(Debug, Clone, Copy, PartialEq, Eq, Structural)]
pub enum ProtocolViolation {
    /// The source file delivered `copied` bytes where its length was announced as `announced`:
    /// it changed while it was being sent.
    SourceLengthChanged { announced: u64, copied: u64 },
    /// `stored` payload bytes were stored where `announced` had been announced.
    PayloadLengthMismatch { announced: u64, stored: u64 },
    /// The peer sent `received` in place of the completion signal.
    UnexpectedSignal { received: u8 },
}

/// Why a transfer failed.
#[derive(Debug, Clone, Copy, PartialEq, Eq, Structural)]
pub enum TransferError {
    /// The transport or the local file failed; the failure is handed on as it came.
    Stream(StreamError),
    /// The protocol was breached.
    Protocol(ProtocolViolation),
    /// The announced payload length is more than this machine can count.
    LengthTooLarge { announced: u64 },
}

/// Reads the payload length out of a received prefix, as a count of this machine.
pub fn announced_size(prefix: &[u8; 8]) -> (result: Result<usize, TransferError>)
    ensures
        match result {
            Ok(size) => size == prefix_value(prefix@),
            Err(error) => prefix_value(prefix@) > usize::MAX && error
                == (TransferError::LengthTooLarge { announced: prefix_value(prefix@) as u64 }),
        },
{
    let length = decode_length(prefix);
    if length <= usize::MAX as u64 {
        Ok(length as usize)
    } else {
        Err(TransferError::LengthTooLarge { announced: length })
    }
}

/// Checks what a push has sent: the copy must have moved as many bytes as were announced.
pub fn confirm_sent(announced: u64, copied: u64) -> (result: Result<usize, TransferError>)
    ensures
        match result {
            Ok(bytes) => copied == announced && bytes == announced,
            Err(error) => if copied != announced {
                error == TransferError::Protocol(
                    ProtocolViolation::SourceLengthChanged { announced, copied },
                )
            } else {
                announced > usize::MAX && error == (TransferError::LengthTooLarge { announced })
            },
        },
{
    if copied != announced {
        Err(TransferError::Protocol(ProtocolViolation::SourceLengthChanged { announced, copied }))
    } else if announced <= usize::MAX as u64 {
        Ok(announced as usize)
    } else {
        Err(TransferError::LengthTooLarge { announced })
    }
}

/// Checks what a pull has stored: as many bytes as were announced.
pub fn confirm_stored(announced: usize, stored: u64) -> (result: Result<usize, TransferError>)
    ensures
        match result {
            Ok(bytes) => stored == announced && bytes == announced,
            Err(error) => stored != announced && error == TransferError::Protocol(
                ProtocolViolation::PayloadLengthMismatch { announced: announced as u64, stored },
            ),
        },
{
    if stored == announced as u64 {
        Ok(announced)
    } else {
        Err(
            TransferError::Protocol(
                ProtocolViolation::PayloadLengthMismatch { announced: announced as u64, stored },
            ),
        )
    }
}

/// Checks the byte that a push receives once it has sent its payload.
pub fn confirm_signal(signal: u8) -> (result: Result<(), TransferError>)
    ensures
        match result {
            Ok(_) => signal == CLOSE,
            Err(error) => signal != CLOSE && error == TransferError::Protocol(
                ProtocolViolation::UnexpectedSignal { received: signal },
            ),
        },
{
    if signal == CLOSE {
        Ok(())
    } else {
        Err(TransferError::Protocol(ProtocolViolation::UnexpectedSignal { received: signal }))
    }
}

/// What `push` asks for: the file to send.
#[derive(Debug, Clone)]
pub struct PushFileArgs {
    pub source_file: PathBuf,
}

/// What `pull` asks for: the file to create or replace.
#[derive(Debug, Clone)]
pub struct PullFileArgs {
    pub output_file: PathBuf,
}

/// One transfer, seen from this side.
#[derive(Debug, Clone)]
pub enum FileTransferCommand {
    /// Send a local file to the peer.
    Push(PushFileArgs),
    /// Receive a file from the peer.
    Pull(PullFileArgs),
}

/// What a push may do to its file and to the write half, and what it then returns.
///
/// It succeeds only where the file delivers as many bytes as it reported: then the write half
/// has taken the frame of those bytes, and the count returned is their number. A file that
/// delivers another number of bytes is a breach. A stream failure comes only from a stream
/// that can fail, or from a file too long to count.
pub open spec fn pushed<F: LocalFile, W: ByteSink>(
    file: F,
    file_after: F,
    write: W,
    write_after: W,
    result: Result<usize, TransferError>,
) -> bool {
    match result {
        Ok(bytes) => {
            &&& bytes == file.reported_length()
            &&& bytes == file.pending().len()
            &&& write_after.written() == write.written() + frame(file.pending())
            &&& file_after.pending() == Seq::<u8>::empty()
            &&& file_after.never_fails() == file.never_fails()
            &&& write_after.always_accepts() == write.always_accepts()
        },
        Err(TransferError::Stream(_)) => {
            ||| !file.never_fails()
            ||| !write.always_accepts()
            ||| file.pending().len() > u64::MAX
        },
        Err(TransferError::Protocol(ProtocolViolation::SourceLengthChanged {
            announced: length,
            copied,
        })) => {
            &&& length == file.reported_length()
            &&& copied == file.pending().len()
            &&& copied != length
        },
        Err(TransferError::Protocol(_)) => false,
        Err(TransferError::LengthTooLarge { announced: length }) => {
            &&& length == file.reported_length()
            &&& length == file.pending().len()
            &&& length > usize::MAX
        },
    }
}

/// What a pull may do to its file, and what it then returns.
///
/// It succeeds only where the incoming bytes hold a whole frame: then the file holds that
/// frame's payload and nothing else, the count returned is the length announced, and the read
/// half comes back at the first byte behind the frame. Bytes that hold no whole frame make the
/// pull fail, with `UnexpectedEof` unless a stream failed before that showed.
pub open spec fn pulled<F: LocalFile, R: ByteSource>(
    file: F,
    file_after: F,
    read: R,
    result: Result<(usize, R), TransferError>,
) -> bool {
    &&& match result {
        Ok((bytes, rest)) => {
            &&& holds_frame(read.pending())
            &&& bytes == announced(read.pending())
            &&& file_after.written() == payload(read.pending())
            &&& rest.pending() == past_frame(read.pending())
            &&& rest.never_fails() == read.never_fails()
            &&& file_after.always_accepts() == file.always_accepts()
        },
        Err(TransferError::Stream(error)) => {
            ||| !read.never_fails()
            ||| !file.always_accepts()
            ||| error == StreamError::UnexpectedEof && !holds_frame(read.pending())
        },
        Err(TransferError::Protocol(_)) => false,
        Err(TransferError::LengthTooLarge { announced: length }) => {
            &&& read.pending().len() >= 8
            &&& length == announced(read.pending())
            &&& length > usize::MAX
        },
    }
    &&& !holds_frame(read.pending()) ==> result is Err
}

/// Sends a file: its length as a prefix, then its bytes up to its end.
///
/// `file` is the source file, opened by the caller. The length sent is the one that the file
/// reports; a file that then delivers another number of bytes has changed, and the push fails.
/// Returns the number of bytes sent.
pub fn push_file<F: LocalFile, W: ByteSink>(file: &mut F, write: &mut W) -> (result: Result<
    usize,
    TransferError,
>)
    ensures
        pushed(*old(file), *final(file), *old(write), *final(write), result),
{
    let length = file.length();
    let prefix = encode_length(length);
    match write.write_all(prefix.as_slice()) {
        Ok(()) => {},
        Err(error) => {
            return Err(TransferError::Stream(error));
        },
    }
    let copied = match copy(file, write) {
        Ok(copied) => copied,
        Err(error) => {
            return Err(TransferError::Stream(error));
        },
    };
    let bytes = confirm_sent(length, copied)?;
    assert(old(write).written() + length_prefix(length) + old(file).pending() =~= old(
        write,
    ).written() + frame(old(file).pending()));
    Ok(bytes)
}

/// Receives a file: the prefix, then exactly the bytes that it announces, which replace
/// whatever `file` held.
///
/// `file` is the destination, opened by the caller. The source is read through a bounded
/// reader and handed back at the first byte behind the payload, with the number of bytes stored.
pub fn pull_file<F: LocalFile, R: ByteSource>(file: &mut F, read: R) -> (result: Result<
    (usize, R),
    TransferError,
>)
    ensures
        pulled(*old(file), *final(file), read, result),
{
    let mut read = read;
    let ghost incoming = read.pending();
    match file.truncate() {
        Ok(()) => {},
        Err(error) => {
            return Err(TransferError::Stream(error));
        },
    }
    let head = match read_exact(&mut read, PREFIX_LEN) {
        Ok(head) => head,
        Err(error) => {
            return Err(TransferError::Stream(error));
        },
    };
    let prefix: [u8; 8] = [
        head[0],
        head[1],
        head[2],
        head[3],
        head[4],
        head[5],
        head[6],
        head[7],
    ];
    assert(prefix@ =~= incoming.take(8));
    let size = announced_size(&prefix)?;
    let mut bounded = ReadExact::new(read, size);
    let stored = match bounded.copy_to(file) {
        Ok(stored) => stored,
        Err(error) => {
            return Err(TransferError::Stream(error));
        },
    };
    let bytes = confirm_stored(size, stored)?;
    let rest = bounded.into_inner();
    assert(incoming.skip(8).take(size as int) =~= payload(incoming));
    assert(incoming.skip(8).skip(size as int) =~= past_frame(incoming));
    assert(Seq::<u8>::empty() + payload(incoming) =~= payload(incoming));
    Ok((bytes, rest))
}

impl PushFileArgs {
    /// Sends the file of these arguments, which the caller has opened as `file`.
    pub fn push_file<F: LocalFile, W: ByteSink>(&self, file: &mut F, write: &mut W) -> (result:
        Result<usize, TransferError>)
        ensures
            pushed(*old(file), *final(file), *old(write), *final(write), result),
    {
        push_file(file, write)
    }
}

impl PullFileArgs {
    /// Receives into the file of these arguments, which the caller has opened as `file`.
    pub fn pull_file<F: LocalFile, R: ByteSource>(&self, file: &mut F, read: R) -> (result:
        Result<(usize, R), TransferError>)
        ensures
            pulled(*old(file), *final(file), read, result),
    {
        pull_file(file, read)
    }
}

impl FileTransferCommand {
    /// What performing a push does and returns: the push itself, and then one byte taken from
    /// the read half, which must be the completion signal.
    pub open spec fn push_performed<F: LocalFile, R: ByteSource, W: ByteSink>(
        file: F,
        file_after: F,
        read: R,
        write: W,
        write_after: W,
        result: Result<(usize, R), TransferError>,
    ) -> bool {
        match result {
            Ok((bytes, rest)) => {
                &&& pushed(file, file_after, write, write_after, Ok(bytes))
                &&& read.pending().len() >= 1
                &&& read.pending()[0] == CLOSE
                &&& rest.pending() == read.pending().skip(1)
                &&& rest.never_fails() == read.never_fails()
            },
            Err(TransferError::Protocol(ProtocolViolation::UnexpectedSignal { received })) => {
                &&& pushed(file, file_after, write, write_after, Ok(file.reported_length() as usize))
                &&& read.pending().len() >= 1
                &&& received == read.pending()[0]
                &&& received != CLOSE
            },
            Err(TransferError::Stream(error)) => {
                ||| pushed(file, file_after, write, write_after, Err(TransferError::Stream(error)))
                ||| !read.never_fails()
                ||| {
                    &&& pushed(
                        file,
                        file_after,
                        write,
                        write_after,
                        Ok(file.reported_length() as usize),
                    )
                    &&& error == StreamError::UnexpectedEof
                    &&& read.pending().len() == 0
                }
            },
            Err(error) => pushed(file, file_after, write, write_after, Err(error)),
        }
    }

    /// What performing a pull does and returns: the pull itself, and then the completion
    /// signal appended to the write half. Whenever the write half has changed at all, the file
    /// holds the whole payload.
    pub open spec fn pull_performed<F: LocalFile, R: ByteSource, W: ByteSink>(
        file: F,
        file_after: F,
        read: R,
        write: W,
        write_after: W,
        result: Result<(usize, R), TransferError>,
    ) -> bool {
        &&& match result {
            Ok((bytes, rest)) => {
                &&& pulled(file, file_after, read, result)
                &&& write_after.written() == write.written().push(CLOSE)
                &&& write_after.always_accepts() == write.always_accepts()
            },
            Err(error) => {
                ||| pulled(file, file_after, read, result) && write_after == write
                ||| !write.always_accepts() && error is Stream
            },
        }
        &&& !holds_frame(read.pending()) ==> result is Err
        &&& write_after.written() != write.written() ==> {
            &&& holds_frame(read.pending())
            &&& file_after.written() == payload(read.pending())
        }
    }

    /// Performs the transfer, handshake included, and returns the number of payload bytes
    /// with the read half.
    ///
    /// A push sends the file and then reads one byte, which must be the completion signal. A
    /// pull receives the file and then, and only then, sends the completion signal.
    pub fn perform<F: LocalFile, R: ByteSource, W: ByteSink>(
        &self,
        file: &mut F,
        read: R,
        write: &mut W,
    ) -> (result: Result<(usize, R), TransferError>)
        ensures
            self is Push ==> Self::push_performed(
                *old(file),
                *final(file),
                read,
                *old(write),
                *final(write),
                result,
            ),
            self is Pull ==> Self::pull_performed(
                *old(file),
                *final(file),
                read,
                *old(write),
                *final(write),
                result,
            ),
    {
        match self {
            FileTransferCommand::Push(args) => {
                let bytes = args.push_file(file, write)?;
                let mut read = read;
                let signal = match read_exact(&mut read, 1) {
                    Ok(signal) => signal,
                    Err(error) => {
                        return Err(TransferError::Stream(error));
                    },
                };
                confirm_signal(signal[0])?;
                Ok((bytes, read))
            },
            FileTransferCommand::Pull(args) => {
                let (bytes, read) = args.pull_file(file, read)?;
                let signal: [u8; 1] = [CLOSE];
                match write.write_all(signal.as_slice()) {
                    Ok(()) => {},
                    Err(error) => {
                        return Err(TransferError::Stream(error));
                    },
                }
                match write.flush() {
                    Ok(()) => {},
                    Err(error) => {
                        return Err(TransferError::Stream(error));
                    },
                }
                assert(signal@ =~= seq![CLOSE]);
                assert(old(write).written() + seq![CLOSE] =~= old(write).written().push(CLOSE));
                Ok((bytes, read))
            },
        }
    }
}

/// A file that is pushed and then pulled arrives as it was.
///
/// Take a push that succeeded into a write half that was empty, and a pull whose incoming
/// bytes are what that write half took, followed by anything. If neither the incoming stream
/// nor the destination can fail, the pull succeeds; the destination then holds exactly the
/// bytes that the source file delivered, whatever it held before; both sides report the same
/// number of bytes; and the read half comes back at the first byte behind the frame.
pub proof fn lemma_push_then_pull<F: LocalFile, W: ByteSink, D: LocalFile, R: ByteSource>(
    source: F,
    source_after: F,
    wire: W,
    wire_after: W,
    sent: usize,
    destination: D,
    destination_after: D,
    incoming: R,
    behind: Seq<u8>,
    received: Result<(usize, R), TransferError>,
)
    requires
        pushed(source, source_after, wire, wire_after, Ok(sent)),
        wire.written() == Seq::<u8>::empty(),
        incoming.pending() == wire_after.written() + behind,
        incoming.never_fails(),
        destination.always_accepts(),
        pulled(destination, destination_after, incoming, received),
    ensures
        received is Ok,
        received->Ok_0.0 == sent,
        sent == source.pending().len(),
        destination_after.written() == source.pending(),
        received->Ok_0.1.pending() == behind,
{
    let content = source.pending();
    assert(wire_after.written() =~= frame(content));
    lemma_frame_round_trip(content, behind);
}

} // verus!
