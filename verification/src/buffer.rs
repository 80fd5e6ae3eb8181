//! The byte buffers of the `bytes` crate, as far as the protocol uses them.
//!
//! Packets are assembled in a `BytesMut` and the response is collected in
//! one; a collected response is frozen into a `Bytes` before its framing is
//! taken off. Nothing in this module is proved: each item states what the
//! `bytes` crate does.

use vstd::prelude::*;

verus! {

/// `bytes::BytesMut`, a growable buffer of bytes. What it holds is known
/// only through `filled`.
#[verifier::external_type_specification]
#[verifier::external_body]
pub struct ExBytesMut(bytes::BytesMut);

/// `bytes::Bytes`, a buffer of bytes that is no longer written to. What
/// it holds is known only through `remaining`.
#[verifier::external_type_specification]
#[verifier::external_body]
pub struct ExBytes(bytes::Bytes);

/// The bytes that a `BytesMut` holds, oldest first.
pub uninterp spec fn filled(buf: bytes::BytesMut) -> Seq<u8>;

/// The bytes that a `Bytes` holds, from its current start to its end.
pub uninterp spec fn remaining(buf: bytes::Bytes) -> Seq<u8>;

/// `BytesMut::new` gives a buffer of length 0.
pub assume_specification[ bytes::BytesMut::new ]() -> (buf: bytes::BytesMut)
    ensures
        filled(buf) == Seq::<u8>::empty(),
;

/// `BytesMut::with_capacity` gives a buffer that holds no data, whatever
/// its capacity. The allocation behind it cannot exceed `isize::MAX` bytes.
pub assume_specification[ bytes::BytesMut::with_capacity ](capacity: usize) -> (buf:
    bytes::BytesMut)
    requires
        capacity <= isize::MAX,
    ensures
        filled(buf) == Seq::<u8>::empty(),
;

/// `BytesMut::len` is the number of bytes held.
pub assume_specification[ bytes::BytesMut::len ](buf: &bytes::BytesMut) -> (n: usize)
    ensures
        n == filled(*buf).len(),
;

/// `BytesMut::freeze` turns the buffer into a `Bytes` over the same bytes.
pub assume_specification[ bytes::BytesMut::freeze ](buf: bytes::BytesMut) -> (frozen:
    bytes::Bytes)
    ensures
        remaining(frozen) == filled(buf),
;

/// `BufMut::put_slice` on a `BytesMut` appends the slice, growing the
/// buffer as needed.
#[verifier::external_body]
pub(crate) fn put_slice(buf: &mut bytes::BytesMut, src: &[u8])
    ensures
        filled(*final(buf)) == filled(*old(buf)) + src@,
{
    bytes::BufMut::put_slice(buf, src)
}

/// `BufMut::put_u16` appends the two bytes of `n`, high byte first.
#[verifier::external_body]
pub(crate) fn put_u16(buf: &mut bytes::BytesMut, n: u16)
    ensures
        filled(*final(buf)) == filled(*old(buf)) + seq![(n / 256) as u8, (n % 256) as u8],
{
    bytes::BufMut::put_u16(buf, n)
}

/// `BufMut::put` on a `BytesMut`, with another `BytesMut` as the source,
/// appends all that the source holds.
#[verifier::external_body]
pub(crate) fn put_buffer(buf: &mut bytes::BytesMut, src: bytes::BytesMut)
    ensures
        filled(*final(buf)) == filled(*old(buf)) + filled(src),
{
    bytes::BufMut::put(buf, src)
}

/// `Buf::advance` on a `Bytes` drops its first `cnt` bytes. It panics when
/// fewer are left.
#[verifier::external_body]
pub(crate) fn advance(buf: &mut bytes::Bytes, cnt: usize)
    requires
        cnt <= remaining(*old(buf)).len(),
    ensures
        remaining(*final(buf)) == remaining(*old(buf)).skip(cnt as int),
{
    bytes::Buf::advance(buf, cnt)
}

/// The `Deref` of a `Bytes`: the slice of the bytes it holds.
#[verifier::external_body]
pub(crate) fn as_slice(buf: &bytes::Bytes) -> (slice: &[u8])
    ensures
        slice@ == remaining(*buf),
{
    std::ops::Deref::deref(buf)
}

} // verus!
