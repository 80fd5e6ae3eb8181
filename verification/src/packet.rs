//! Outbound packets.
//!
//! A packet on the wire is a length, a packet id and a payload. The length
//! and the id are variable-length integers, and the length counts the bytes
//! of the id and of the payload, not its own.

use crate::buffer::{filled, put_buffer, put_slice, put_u16};
use crate::error::ProbeError;
use crate::varint::{decoded, encode, encoded_len, lemma_decode_encode, varint_bytes};
use bytes::BytesMut;
use vstd::prelude::*;
use vstd::string::StringSliceAdditionalSpecFns;

verus! {

/// The id of the handshake packet.
pub const HANDSHAKE_PACKET_ID: u32 = 0;

/// The id of the status request packet.
pub const STATUS_REQUEST_PACKET_ID: u32 = 0;

/// The state that a handshake asks the server to enter next: status.
pub const NEXT_STATE_STATUS: u32 = 1;

/// A byte string behind its length.
pub open spec fn length_prefixed(text: Seq<u8>) -> Seq<u8> {
    varint_bytes(text.len()) + text
}

/// The two bytes of `n`, high byte first.
pub open spec fn big_endian_u16(n: u16) -> Seq<u8> {
    seq![(n / 256) as u8, (n % 256) as u8]
}

/// The number of bytes that the length prefix of a packet covers.
pub open spec fn remaining_length(packet_id: u32, payload_len: nat) -> nat {
    varint_bytes(packet_id as nat).len() + payload_len
}

/// The wire bytes of a packet.
pub open spec fn packet_bytes(packet_id: u32, payload: Seq<u8>) -> Seq<u8> {
    varint_bytes(remaining_length(packet_id, payload.len())) + varint_bytes(packet_id as nat)
        + payload
}

/// The payload of a handshake: protocol version, host behind its length,
/// port, next state.
pub open spec fn handshake_payload_bytes(protocol_version: u32, host: Seq<u8>, port: u16) -> Seq<
    u8,
> {
    varint_bytes(protocol_version as nat) + length_prefixed(host) + big_endian_u16(port)
        + varint_bytes(NEXT_STATE_STATUS as nat)
}

/// The wire bytes of a handshake packet.
pub open spec fn handshake_bytes(protocol_version: u32, host: Seq<u8>, port: u16) -> Seq<u8> {
    packet_bytes(HANDSHAKE_PACKET_ID, handshake_payload_bytes(protocol_version, host, port))
}

/// The wire bytes of a status request: a packet without payload.
pub open spec fn status_request_bytes() -> Seq<u8> {
    packet_bytes(STATUS_REQUEST_PACKET_ID, Seq::<u8>::empty())
}

/// The value of a length field that counts `len` bytes. Fails when 32 bits
/// cannot hold the count.
pub fn length_field(len: usize) -> (res: Result<u32, ProbeError>)
    ensures
        match res {
            Ok(count) => count == len,
            Err(e) => e == ProbeError::PacketTooLarge && len > u32::MAX,
        },
{
    if len > u32::MAX as usize {
        Err(ProbeError::PacketTooLarge)
    } else {
        Ok(len as u32)
    }
}

/// Appends the encoding of `value`.
pub fn put_vi(buf: &mut BytesMut, value: u32)
    ensures
        filled(*final(buf)) == filled(*old(buf)) + varint_bytes(value as nat),
{
    let encoded = encode(value);
    put_slice(buf, encoded.as_slice());
}

/// Appends `value` behind its length in bytes. A string whose length cannot
/// be counted in 32 bits is refused and `buf` stays as it was.
pub fn put_str(buf: &mut BytesMut, value: &str) -> (res: Result<(), ProbeError>)
    ensures
        match res {
            Ok(_) => {
                &&& value.spec_bytes().len() <= u32::MAX
                &&& filled(*final(buf)) == filled(*old(buf)) + length_prefixed(
                    value.spec_bytes(),
                )
            },
            Err(e) => {
                &&& e == ProbeError::PacketTooLarge
                &&& value.spec_bytes().len() > u32::MAX
                &&& filled(*final(buf)) == filled(*old(buf))
            },
        },
{
    let text_bytes = value.as_bytes();
    let len: u32 = match length_field(text_bytes.len()) {
        Ok(len) => len,
        Err(e) => {
            return Err(e);
        },
    };
    put_vi(buf, len);
    put_slice(buf, text_bytes);
    proof {
        let text = value.spec_bytes();
        assert(filled(*buf) =~= filled(*old(buf)) + (varint_bytes(text.len()) + text));
    }
    Ok(())
}

/// Wraps `payload` into a packet with the given id. The length prefix is
/// computed last, from the encoded id and the payload together. Fails when
/// that count does not fit in 32 bits.
pub fn build_packet(packet_id: u32, payload: BytesMut) -> (res: Result<BytesMut, ProbeError>)
    ensures
        match res {
            Ok(packet) => {
                &&& remaining_length(packet_id, filled(payload).len()) <= u32::MAX
                &&& filled(packet) == packet_bytes(packet_id, filled(payload))
            },
            Err(e) => {
                &&& e == ProbeError::PacketTooLarge
                &&& remaining_length(packet_id, filled(payload).len()) > u32::MAX
            },
        },
{
    let id_len: usize = encoded_len(packet_id);
    let payload_len: usize = payload.len();
    if payload_len > usize::MAX - id_len {
        return Err(ProbeError::PacketTooLarge);
    }
    let covered: u32 = match length_field(id_len + payload_len) {
        Ok(covered) => covered,
        Err(e) => {
            return Err(e);
        },
    };
    let mut packet = BytesMut::new();
    put_vi(&mut packet, covered);
    put_vi(&mut packet, packet_id);
    put_buffer(&mut packet, payload);
    proof {
        assert(filled(packet) =~= packet_bytes(packet_id, filled(payload)));
    }
    Ok(packet)
}

/// The handshake packet that announces `protocol_version` to the server at
/// `host` and `port` and asks for its status next.
pub fn handshake_packet(protocol_version: u32, host: &str, port: u16) -> (res: Result<
    BytesMut,
    ProbeError,
>)
    ensures
        match res {
            Ok(packet) => {
                &&& handshake_fits(protocol_version, host.spec_bytes())
                &&& filled(packet) == handshake_bytes(protocol_version, host.spec_bytes(), port)
            },
            Err(e) => {
                &&& e == ProbeError::PacketTooLarge
                &&& !handshake_fits(protocol_version, host.spec_bytes())
            },
        },
{
    let mut payload = BytesMut::new();
    put_vi(&mut payload, protocol_version);
    match put_str(&mut payload, host) {
        Ok(_) => {},
        Err(e) => {
            return Err(e);
        },
    }
    put_u16(&mut payload, port);
    put_vi(&mut payload, NEXT_STATE_STATUS);
    proof {
        assert(filled(payload) =~= handshake_payload_bytes(
            protocol_version,
            host.spec_bytes(),
            port,
        ));
    }
    build_packet(HANDSHAKE_PACKET_ID, payload)
}

/// Whether a handshake for this host can be framed: the bytes behind its
/// length prefix can be counted in 32 bits.
pub open spec fn handshake_fits(protocol_version: u32, host: Seq<u8>) -> bool {
    remaining_length(
        HANDSHAKE_PACKET_ID,
        handshake_payload_bytes(protocol_version, host, 0).len(),
    ) <= u32::MAX
}

/// The status request packet: length 1, id 0.
pub fn status_request_packet() -> (packet: BytesMut)
    ensures
        filled(packet) == status_request_bytes(),
        filled(packet) == seq![1u8, 0u8],
{
    let mut packet = BytesMut::new();
    put_vi(&mut packet, 1);
    put_vi(&mut packet, STATUS_REQUEST_PACKET_ID);
    proof {
        reveal_with_fuel(varint_bytes, 2);
        assert(varint_bytes(0) =~= seq![0u8]);
        assert(varint_bytes(1) =~= seq![1u8]);
        assert(filled(packet) =~= seq![1u8, 0u8]);
        assert(status_request_bytes() =~= seq![1u8, 0u8]);
    }
    packet
}

/// The length prefix of a packet decodes to the number of bytes of its id
/// and its payload together, and ends where the id begins.
pub proof fn lemma_length_prefix(packet_id: u32, payload: Seq<u8>)
    requires
        remaining_length(packet_id, payload.len()) <= u32::MAX,
    ensures
        decoded(packet_bytes(packet_id, payload), 0) == Some(
            (
                remaining_length(packet_id, payload.len()) as u32,
                varint_bytes(remaining_length(packet_id, payload.len())).len(),
            ),
        ),
        packet_bytes(packet_id, payload).len() == varint_bytes(
            remaining_length(packet_id, payload.len()),
        ).len() + remaining_length(packet_id, payload.len()),
{
    let covered = remaining_length(packet_id, payload.len()) as u32;
    let after = varint_bytes(packet_id as nat) + payload;
    lemma_decode_encode(covered, after);
    assert(packet_bytes(packet_id, payload) =~= varint_bytes(covered as nat) + after);
}

} // verus!
