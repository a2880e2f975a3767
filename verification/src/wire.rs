//! The wire format: an eight-byte big-endian length prefix, the payload, and in the other
//! direction one completion byte.

use vstd::prelude::*;

verus! {

/// The completion signal: the one byte that the receiver of a payload sends back once the
/// payload has been stored.
pub const CLOSE: u8 = 0;

/// The number of bytes of a length prefix.
pub const PREFIX_LEN: usize = 8;

/// The weight of the byte at `index` of a length prefix: 256 to the power `7 - index`.
pub open spec fn place_value(index: int) -> int {
    if index == 0 {
        0x100_0000_0000_0000
    } else if index == 1 {
        0x1_0000_0000_0000
    } else if index == 2 {
        0x100_0000_0000
    } else if index == 3 {
        0x1_0000_0000
    } else if index == 4 {
        0x100_0000
    } else if index == 5 {
        0x1_0000
    } else if index == 6 {
        0x100
    } else {
        1
    }
}

/// The length prefix that announces a payload of `len` bytes: the eight digits of `len` to the
/// base 256, most significant first.
pub open spec fn length_prefix(len: u64) -> Seq<u8> {
    Seq::new(8, |i: int| ((len as int / place_value(i)) % 256) as u8)
}

/// The payload length that a length prefix announces.
pub open spec fn prefix_value(prefix: Seq<u8>) -> int {
    prefix[0] * place_value(0) + prefix[1] * place_value(1) + prefix[2] * place_value(2)
        + prefix[3] * place_value(3) + prefix[4] * place_value(4) + prefix[5] * place_value(5)
        + prefix[6] * place_value(6) + prefix[7] * place_value(7)
}

/// What a push puts on the wire for a file with the given content: the prefix, then the content.
pub open spec fn frame(content: Seq<u8>) -> Seq<u8>
    recommends
        content.len() <= u64::MAX,
{
    length_prefix(content.len() as u64) + content
}

/// The payload length that the first eight of the incoming bytes announce.
pub open spec fn announced(incoming: Seq<u8>) -> int
    recommends
        incoming.len() >= 8,
{
    prefix_value(incoming.take(8))
}

/// Whether the incoming bytes hold a whole frame: a prefix, and all the bytes it announces.
pub open spec fn holds_frame(incoming: Seq<u8>) -> bool {
    incoming.len() >= 8 && incoming.len() >= 8 + announced(incoming)
}

/// The payload of the frame that the incoming bytes start with.
pub open spec fn payload(incoming: Seq<u8>) -> Seq<u8>
    recommends
        holds_frame(incoming),
{
    incoming.subrange(8, 8 + announced(incoming))
}

/// What follows the frame that the incoming bytes start with.
pub open spec fn past_frame(incoming: Seq<u8>) -> Seq<u8>
    recommends
        holds_frame(incoming),
{
    incoming.skip(8 + announced(incoming))
}

/// Encodes a payload length as its length prefix.
pub fn encode_length(len: u64) -> (prefix: [u8; 8])
    ensures
        prefix@ == length_prefix(len),
{
    let prefix: [u8; 8] = [
        (len / 0x100_0000_0000_0000) as u8,
        ((len / 0x1_0000_0000_0000) % 256) as u8,
        ((len / 0x100_0000_0000) % 256) as u8,
        ((len / 0x1_0000_0000) % 256) as u8,
        ((len / 0x100_0000) % 256) as u8,
        ((len / 0x1_0000) % 256) as u8,
        ((len / 0x100) % 256) as u8,
        (len % 256) as u8,
    ];
    assert(prefix@ =~= length_prefix(len));
    prefix
}

/// Decodes a length prefix.
pub fn decode_length(prefix: &[u8; 8]) -> (len: u64)
    ensures
        len == prefix_value(prefix@),
{
    let high: u64 = prefix[0] as u64 * 0x100_0000 + prefix[1] as u64 * 0x1_0000 + prefix[2] as u64
        * 0x100 + prefix[3] as u64;
    let low: u64 = prefix[4] as u64 * 0x100_0000 + prefix[5] as u64 * 0x1_0000 + prefix[6] as u64
        * 0x100 + prefix[7] as u64;
    high * 0x1_0000_0000 + low
}

/// Every length prefix is eight bytes long.
pub proof fn lemma_prefix_len(len: u64)
    ensures
        length_prefix(len).len() == 8,
{
}

/// Decoding undoes encoding: the prefix of a length announces that length.
pub proof fn lemma_decode_encode(len: u64)
    ensures
        prefix_value(length_prefix(len)) == len,
{
    let n = len as int;
    let s1 = n / 0x100;
    let s2 = n / 0x1_0000;
    let s3 = n / 0x100_0000;
    let s4 = n / 0x1_0000_0000;
    let s5 = n / 0x100_0000_0000;
    let s6 = n / 0x1_0000_0000_0000;
    let s7 = n / 0x100_0000_0000_0000;
    assert(n == 256 * s1 + n % 256);
    assert(s1 == 256 * s2 + s1 % 256 && s1 % 256 == s1 - 256 * s2);
    assert(s2 == 256 * s3 + s2 % 256);
    assert(s3 == 256 * s4 + s3 % 256);
    assert(s4 == 256 * s5 + s4 % 256);
    assert(s5 == 256 * s6 + s5 % 256);
    assert(s6 == 256 * s7 + s6 % 256);
    assert(s7 == s7 % 256);
    let p = length_prefix(len);
    assert(p[0] == s7 % 256);
    assert(p[1] == s6 % 256);
    assert(p[2] == s5 % 256);
    assert(p[3] == s4 % 256);
    assert(p[4] == s3 % 256);
    assert(p[5] == s2 % 256);
    assert(p[6] == s1 % 256);
    assert(p[7] == n % 256);
}

/// Encoding undoes decoding: eight bytes are the prefix of the length they announce, so no two
/// prefixes announce the same length.
pub proof fn lemma_encode_decode(prefix: Seq<u8>)
    requires
        prefix.len() == 8,
    ensures
        0 <= prefix_value(prefix) <= u64::MAX,
        length_prefix(prefix_value(prefix) as u64) == prefix,
{
    let n = prefix_value(prefix);
    let t7 = prefix[0] as int;
    let t6 = 256 * t7 + prefix[1];
    let t5 = 256 * t6 + prefix[2];
    let t4 = 256 * t5 + prefix[3];
    let t3 = 256 * t4 + prefix[4];
    let t2 = 256 * t3 + prefix[5];
    let t1 = 256 * t2 + prefix[6];
    assert(n == 256 * t1 + prefix[7]);
    assert(n / 0x100 == t1);
    assert(n / 0x1_0000 == t2);
    assert(n / 0x100_0000 == t3);
    assert(n / 0x1_0000_0000 == t4);
    assert(n / 0x100_0000_0000 == t5);
    assert(n / 0x1_0000_0000_0000 == t6);
    assert(n / 0x100_0000_0000_0000 == t7);
    let q = length_prefix(n as u64);
    assert(q[0] == prefix[0]);
    assert(q[1] == prefix[1]);
    assert(q[2] == prefix[2]);
    assert(q[3] == prefix[3]);
    assert(q[4] == prefix[4]);
    assert(q[5] == prefix[5]);
    assert(q[6] == prefix[6]);
    assert(q[7] == prefix[7]);
    assert(q =~= prefix);
}

/// A frame is read back as it was written: whatever follows it on the wire, the bytes that a
/// push sends for `content` hold a whole frame, announce the content's length, carry the content
/// as their payload, and end where the rest begins.
pub proof fn lemma_frame_round_trip(content: Seq<u8>, rest: Seq<u8>)
    requires
        content.len() <= u64::MAX,
    ensures
        holds_frame(frame(content) + rest),
        announced(frame(content) + rest) == content.len(),
        payload(frame(content) + rest) == content,
        past_frame(frame(content) + rest) == rest,
{
    let len = content.len() as u64;
    let incoming = frame(content) + rest;
    lemma_decode_encode(len);
    assert(incoming.take(8) =~= length_prefix(len));
    assert(payload(incoming) =~= content);
    assert(past_frame(incoming) =~= rest);
}

} // verus!
