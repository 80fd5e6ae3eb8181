//! The framing of a response.
//!
//! A response starts with three variable-length integers: the length of the
//! packet, the packet id and the length of the payload string. The payload
//! text is everything behind them. The three fields are stepped over by
//! their continuation bits alone; what they say is not looked at.

use crate::buffer::{advance, as_slice, remaining};
use crate::error::ProbeError;
use crate::varint::{
    chain_len, is_chain, is_last_byte, lemma_chain_len_embedded, lemma_chain_len_iff,
};
use bytes::Bytes;
use vstd::prelude::*;

verus! {

/// The number of leading fields in front of the payload.
pub const FRAME_FIELDS: usize = 3;

/// Where the cursor stands after stepping over `fields` integers from
/// `start`. `None` when `s` ends inside one of them.
pub open spec fn fields_end(s: Seq<u8>, start: int, fields: nat) -> Option<int>
    decreases fields,
{
    if fields == 0 {
        Some(start)
    } else {
        match chain_len(s, start) {
            Some(n) => fields_end(s, start + n, (fields - 1) as nat),
            None => None,
        }
    }
}

/// Where the payload starts in a response. `None` when the response ends
/// before its third field does.
pub open spec fn payload_start(s: Seq<u8>) -> Option<int> {
    fields_end(s, 0, FRAME_FIELDS as nat)
}

/// Steps over one field: the index just behind the first byte at or after
/// `start` whose continuation bit is clear.
pub fn skip_field(buf: &[u8], start: usize) -> (res: Result<usize, ProbeError>)
    ensures
        match res {
            Ok(end) => {
                &&& chain_len(buf@, start as int) == Some((end - start) as nat)
                &&& start < end <= buf@.len()
            },
            Err(e) => e == ProbeError::FrameUnderrun && chain_len(buf@, start as int) is None,
        },
{
    let mut cursor: usize = start;
    while cursor < buf.len()
        invariant
            start <= cursor,
            forall|j: int| start <= j < cursor ==> buf@[j] >= 128,
        decreases buf.len() - cursor,
    {
        if is_last_byte(buf[cursor]) {
            proof {
                lemma_chain_len_iff(buf@, start as int, (cursor + 1 - start) as nat);
            }
            return Ok(cursor + 1);
        }
        cursor = cursor + 1;
    }
    proof {
        match chain_len(buf@, start as int) {
            Some(n) => {
                lemma_chain_len_iff(buf@, start as int, n);
            },
            None => {},
        }
    }
    Err(ProbeError::FrameUnderrun)
}

/// Finds where the payload starts in a response: steps over the three
/// leading fields. A response that ends before the third field does is an
/// underrun.
pub fn payload_offset(buf: &[u8]) -> (res: Result<usize, ProbeError>)
    ensures
        match res {
            Ok(at) => payload_start(buf@) == Some(at as int) && at <= buf@.len(),
            Err(e) => e == ProbeError::FrameUnderrun && payload_start(buf@) is None,
        },
{
    let mut cursor: usize = 0;
    let mut count: usize = 0;
    while count < FRAME_FIELDS
        invariant
            count <= FRAME_FIELDS,
            cursor <= buf@.len(),
            fields_end(buf@, 0, FRAME_FIELDS as nat) == fields_end(
                buf@,
                cursor as int,
                (FRAME_FIELDS - count) as nat,
            ),
        decreases FRAME_FIELDS - count,
    {
        match skip_field(buf, cursor) {
            Ok(end) => {
                cursor = end;
            },
            Err(e) => {
                return Err(e);
            },
        }
        count = count + 1;
    }
    Ok(cursor)
}

/// Takes the framing off a response, leaving the payload text.
pub fn strip_frame(response: Bytes) -> (res: Result<Bytes, ProbeError>)
    ensures
        match res {
            Ok(payload) => {
                &&& payload_start(remaining(response)) matches Some(at)
                &&& remaining(payload) == remaining(response).skip(at)
            },
            Err(e) => {
                &&& e == ProbeError::FrameUnderrun
                &&& payload_start(remaining(response)) is None
            },
        },
{
    let mut response = response;
    let at: usize = match payload_offset(as_slice(&response)) {
        Ok(at) => at,
        Err(e) => {
            return Err(e);
        },
    };
    advance(&mut response, at);
    Ok(response)
}

/// A response made of three whole fields and a payload is stripped to
/// exactly that payload: the cursor stops at the payload's first byte.
pub proof fn lemma_strip_well_formed(
    first: Seq<u8>,
    second: Seq<u8>,
    third: Seq<u8>,
    payload: Seq<u8>,
)
    requires
        is_chain(first),
        is_chain(second),
        is_chain(third),
    ensures
        payload_start(first + second + third + payload) == Some(
            (first.len() + second.len() + third.len()) as int,
        ),
        (first + second + third + payload).skip(
            (first.len() + second.len() + third.len()) as int,
        ) == payload,
{
    let s = first + second + third + payload;
    let a = first.len() as int;
    let b = a + second.len();
    let c = b + third.len();
    lemma_chain_len_embedded(Seq::<u8>::empty(), first, second + third + payload);
    assert(Seq::<u8>::empty() + first + (second + third + payload) =~= s);
    lemma_chain_len_embedded(first, second, third + payload);
    assert(first + second + (third + payload) =~= s);
    lemma_chain_len_embedded(first + second, third, payload);
    assert(chain_len(s, 0) == Some(first.len()));
    assert(chain_len(s, a) == Some(second.len()));
    assert(chain_len(s, b) == Some(third.len()));
    reveal_with_fuel(fields_end, 4);
    assert(fields_end(s, c, 0) == Some(c));
    assert(fields_end(s, b, 1) == Some(c));
    assert(fields_end(s, a, 2) == Some(c));
    assert(fields_end(s, 0, 3) == Some(c));
    assert(s.skip(c) =~= payload);
}

/// A response that ends before a field does cannot be stripped: with
/// fewer than three bytes whose continuation bit is clear there is no
/// payload start.
pub proof fn lemma_strip_underrun(s: Seq<u8>, whole: nat)
    requires
        whole < FRAME_FIELDS,
        fields_end(s, 0, whole) matches Some(at) && forall|j: int|
            at <= j < s.len() ==> s[j] >= 128,
    ensures
        payload_start(s) is None,
{
    reveal_with_fuel(fields_end, 4);
    let at = fields_end(s, 0, whole)->0;
    match chain_len(s, at) {
        Some(n) => {
            lemma_chain_len_iff(s, at, n);
        },
        None => {},
    }
    lemma_fields_end_split(s, 0, whole, (FRAME_FIELDS - whole) as nat);
}

/// Stepping over `a + b` fields is stepping over `a` and then over `b`.
pub proof fn lemma_fields_end_split(s: Seq<u8>, start: int, a: nat, b: nat)
    ensures
        fields_end(s, start, a + b) == match fields_end(s, start, a) {
            Some(mid) => fields_end(s, mid, b),
            None => None,
        },
    decreases a,
{
    if a > 0 {
        match chain_len(s, start) {
            Some(n) => {
                lemma_fields_end_split(s, start + n, (a - 1) as nat, b);
                assert((a - 1) as nat + b == (a + b - 1) as nat);
            },
            None => {},
        }
    }
}

} // verus!
