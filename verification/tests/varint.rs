use server_probe::error::ProbeError;
use server_probe::varint::{decode, encode, encoded_len, is_last_byte, MAX_VARINT_LEN};

#[test]
fn encode_zero_is_one_zero_byte() {
    assert_eq!(encode(0), vec![0x00]);
}

#[test]
fn encode_127_is_one_byte() {
    assert_eq!(encode(127), vec![0x7F]);
}

#[test]
fn encode_128_takes_two_bytes() {
    assert_eq!(encode(128), vec![0x80, 0x01]);
}

#[test]
fn encode_protocol_version() {
    assert_eq!(encode(760), vec![0xF8, 0x05]);
}

#[test]
fn encode_largest_value() {
    assert_eq!(encode(u32::MAX), vec![0xFF, 0xFF, 0xFF, 0xFF, 0x0F]);
    assert_eq!(encode(u32::MAX).len(), MAX_VARINT_LEN);
}

#[test]
fn encoded_len_matches_encode() {
    let samples: [u32; 12] = [
        0, 1, 127, 128, 16383, 16384, 2097151, 2097152, 268435455, 268435456, 760, u32::MAX,
    ];
    for v in samples {
        assert_eq!(encoded_len(v), encode(v).len());
    }
}

#[test]
fn decode_round_trip() {
    let samples: [u32; 12] = [
        0, 1, 127, 128, 300, 16383, 16384, 2097151, 2097152, 268435455, 268435456, u32::MAX,
    ];
    for v in samples {
        let bytes = encode(v);
        assert_eq!(decode(&bytes, 0), Ok((v, bytes.len())));
    }
}

#[test]
fn decode_at_offset_ignores_what_surrounds() {
    let buf = [0xAA, 0xF8, 0x05, 0x01];
    assert_eq!(decode(&buf, 1), Ok((760, 2)));
    assert_eq!(decode(&buf, 3), Ok((1, 1)));
}

#[test]
fn decode_accepts_padded_spelling() {
    assert_eq!(decode(&[0x80, 0x00], 0), Ok((0, 2)));
}

#[test]
fn decode_drops_bits_above_the_32nd() {
    assert_eq!(decode(&[0xFF, 0xFF, 0xFF, 0xFF, 0x7F], 0), Ok((u32::MAX, 5)));
    assert_eq!(decode(&[0x80, 0x80, 0x80, 0x80, 0x10], 0), Ok((0, 5)));
}

#[test]
fn decode_fails_on_six_byte_chain() {
    let buf = [0x80, 0x80, 0x80, 0x80, 0x80, 0x01];
    assert_eq!(decode(&buf, 0), Err(ProbeError::MalformedVarint));
}

#[test]
fn decode_fails_when_buffer_ends_mid_sequence() {
    assert_eq!(decode(&[0x80, 0x80], 0), Err(ProbeError::MalformedVarint));
    assert_eq!(decode(&[], 0), Err(ProbeError::MalformedVarint));
}

#[test]
fn decode_fails_past_the_end() {
    assert_eq!(decode(&[0x01], 1), Err(ProbeError::MalformedVarint));
    assert_eq!(decode(&[0x01], 7), Err(ProbeError::MalformedVarint));
    assert_eq!(decode(&[0x01], usize::MAX), Err(ProbeError::MalformedVarint));
}

#[test]
fn last_byte_has_clear_top_bit() {
    assert!(is_last_byte(0x00));
    assert!(is_last_byte(0x7F));
    assert!(!is_last_byte(0x80));
    assert!(!is_last_byte(0xFF));
}
