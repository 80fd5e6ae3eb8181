use bytes::Bytes;
use server_probe::error::ProbeError;
use server_probe::frame::{payload_offset, skip_field, strip_frame, FRAME_FIELDS};
use server_probe::varint::encode;

fn framed(total: u32, id: u32, text: &[u8]) -> Vec<u8> {
    let mut buf = encode(total);
    buf.extend_from_slice(&encode(id));
    buf.extend_from_slice(&encode(text.len() as u32));
    buf.extend_from_slice(text);
    buf
}

#[test]
fn frame_has_three_fields() {
    assert_eq!(FRAME_FIELDS, 3);
}

#[test]
fn skip_field_stops_behind_the_last_byte() {
    let buf = [0x85, 0x01, 0x00, 0x7F];
    assert_eq!(skip_field(&buf, 0), Ok(2));
    assert_eq!(skip_field(&buf, 1), Ok(2));
    assert_eq!(skip_field(&buf, 2), Ok(3));
    assert_eq!(skip_field(&buf, 3), Ok(4));
}

#[test]
fn skip_field_is_not_bounded_by_five_bytes() {
    let buf = [0x80, 0x80, 0x80, 0x80, 0x80, 0x80, 0x01, 0x02];
    assert_eq!(skip_field(&buf, 0), Ok(7));
}

#[test]
fn skip_field_underruns_at_the_end() {
    let buf = [0x01, 0x80, 0xFF];
    assert_eq!(skip_field(&buf, 1), Err(ProbeError::FrameUnderrun));
    assert_eq!(skip_field(&buf, 3), Err(ProbeError::FrameUnderrun));
    assert_eq!(skip_field(&buf, 9), Err(ProbeError::FrameUnderrun));
}

#[test]
fn strip_well_formed_yields_payload() {
    let text = b"{\"k\":1}";
    let buf = framed(9, 0, text);
    assert_eq!(payload_offset(&buf), Ok(3));
    let stripped = strip_frame(Bytes::from(buf)).unwrap();
    assert_eq!(&stripped[..], &text[..]);
}

#[test]
fn strip_well_formed_with_long_fields() {
    let text = vec![b'x'; 300];
    let buf = framed(303, 0, &text);
    // two bytes of length, one of id, two of string length
    assert_eq!(payload_offset(&buf), Ok(5));
    let stripped = strip_frame(Bytes::from(buf)).unwrap();
    assert_eq!(&stripped[..], &text[..]);
}

#[test]
fn strip_with_empty_payload() {
    let buf = framed(2, 0, b"");
    assert_eq!(payload_offset(&buf), Ok(3));
    let stripped = strip_frame(Bytes::from(buf)).unwrap();
    assert!(stripped.is_empty());
}

#[test]
fn strip_does_not_read_field_values() {
    // the lengths lie; only the continuation bits count
    let buf = [0x7F, 0x55, 0x00, b'a', b'b'];
    assert_eq!(payload_offset(&buf), Ok(3));
    let stripped = strip_frame(Bytes::copy_from_slice(&buf)).unwrap();
    assert_eq!(&stripped[..], b"ab");
}

#[test]
fn strip_payload_may_hold_high_bytes() {
    let buf = [0x03, 0x00, 0x02, 0xC3, 0xA9];
    let stripped = strip_frame(Bytes::copy_from_slice(&buf)).unwrap();
    assert_eq!(&stripped[..], &[0xC3, 0xA9]);
}

#[test]
fn strip_fails_when_first_chain_does_not_end() {
    assert_eq!(payload_offset(&[0x80]), Err(ProbeError::FrameUnderrun));
    assert_eq!(payload_offset(&[0xFF, 0x80, 0x90]), Err(ProbeError::FrameUnderrun));
    assert_eq!(
        strip_frame(Bytes::copy_from_slice(&[0x80, 0x80])),
        Err(ProbeError::FrameUnderrun)
    );
}

#[test]
fn strip_fails_on_empty_response() {
    assert_eq!(payload_offset(&[]), Err(ProbeError::FrameUnderrun));
    assert_eq!(strip_frame(Bytes::new()), Err(ProbeError::FrameUnderrun));
}

#[test]
fn strip_fails_after_length_and_id_only() {
    assert_eq!(payload_offset(&[0x85, 0x01, 0x00]), Err(ProbeError::FrameUnderrun));
    assert_eq!(
        strip_frame(Bytes::copy_from_slice(&[0x85, 0x01, 0x00])),
        Err(ProbeError::FrameUnderrun)
    );
}

#[test]
fn strip_fails_inside_third_field() {
    assert_eq!(payload_offset(&[0x05, 0x00, 0x82]), Err(ProbeError::FrameUnderrun));
}
