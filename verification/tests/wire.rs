use file_transfer::wire::{decode_length, encode_length, CLOSE, PREFIX_LEN};

#[test]
fn completion_signal_is_zero() {
    assert_eq!(CLOSE, 0);
}

#[test]
fn prefix_has_eight_bytes() {
    assert_eq!(PREFIX_LEN, 8);
    assert_eq!(encode_length(12345).len(), 8);
}

#[test]
fn encode_zero() {
    assert_eq!(encode_length(0), [0, 0, 0, 0, 0, 0, 0, 0]);
}

#[test]
fn encode_puts_most_significant_byte_first() {
    assert_eq!(encode_length(2), [0, 0, 0, 0, 0, 0, 0, 2]);
    assert_eq!(encode_length(258), [0, 0, 0, 0, 0, 0, 1, 2]);
    assert_eq!(
        encode_length(0x0102_0304_0506_0708),
        [1, 2, 3, 4, 5, 6, 7, 8]
    );
}

#[test]
fn encode_largest_length() {
    assert_eq!(encode_length(u64::MAX), [255; 8]);
}

#[test]
fn encode_agrees_with_big_endian_bytes() {
    for len in [0u64, 1, 255, 256, 65_535, 65_536, 1 << 32, (1 << 56) + 17, u64::MAX - 1] {
        assert_eq!(encode_length(len), len.to_be_bytes());
    }
}

#[test]
fn decode_reads_most_significant_byte_first() {
    assert_eq!(decode_length(&[0, 0, 0, 0, 0, 0, 0, 0]), 0);
    assert_eq!(decode_length(&[0, 0, 0, 0, 0, 0, 1, 2]), 258);
    assert_eq!(decode_length(&[1, 2, 3, 4, 5, 6, 7, 8]), 0x0102_0304_0506_0708);
    assert_eq!(decode_length(&[255; 8]), u64::MAX);
}

#[test]
fn decode_undoes_encode() {
    for len in [0u64, 1, 7, 255, 256, 1_048_576, 918_733_457_491_587, u64::MAX] {
        assert_eq!(decode_length(&encode_length(len)), len);
    }
}

#[test]
fn encode_undoes_decode() {
    let prefixes: [[u8; 8]; 3] = [
        [0, 0, 0, 0, 0, 0, 0, 1],
        [9, 8, 7, 6, 5, 4, 3, 2],
        [128, 0, 0, 0, 0, 0, 0, 0],
    ];
    for prefix in prefixes {
        assert_eq!(encode_length(decode_length(&prefix)), prefix);
    }
}
