//! A point-to-point file transfer protocol over any ordered, reliable byte stream.
//!
//! One side pushes a file: it sends an eight-byte length prefix and then the file's bytes, and
//! waits for a one-byte completion signal. The other side pulls: it reads the prefix, reads
//! exactly that many bytes through a bounded reader, stores them, and sends the signal.
//!
//! The operations in [`transfer`] run over the capabilities of [`stream`]; the checks they
//! make are functions of their own, for callers that drive the streams themselves.

pub mod memory;
pub mod read_exact;
pub mod stream;
pub mod transfer;
pub mod wire;

pub use crate::memory::MemoryBuffer;
pub use crate::read_exact::ReadExact;
pub use crate::stream::{ByteSink, ByteSource, LocalFile, StreamError};
pub use crate::transfer::{
    announced_size, confirm_sent, confirm_signal, confirm_stored, pull_file, push_file,
    FileTransferCommand, ProtocolViolation, PullFileArgs, PushFileArgs, TransferError,
};
pub use crate::wire::{decode_length, encode_length, CLOSE};
