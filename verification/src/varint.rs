//! The protocol's variable-length unsigned integers.
//!
//! A value is written as groups of seven bits, least significant group
//! first, one group per byte. The top bit of a byte (the continuation bit)
//! is set on every byte but the last.

use crate::error::ProbeError;
use vstd::prelude::*;

verus! {

/// The most bytes that the encoding of a 32-bit value takes.
pub const MAX_VARINT_LEN: usize = 5;

/// The encoding of `v`.
pub open spec fn varint_bytes(v: nat) -> Seq<u8>
    decreases v,
{
    if v < 128 {
        seq![v as u8]
    } else {
        seq![(128 + v % 128) as u8] + varint_bytes(v / 128)
    }
}

/// 128 to the power `n`: the weight of the group at position `n`.
pub open spec fn pow128(n: nat) -> nat
    decreases n,
{
    if n == 0 {
        1
    } else {
        128 * pow128((n - 1) as nat)
    }
}

/// The number that the seven-bit groups of `s` spell, first group least
/// significant. Continuation bits are ignored.
pub open spec fn chain_value(s: Seq<u8>) -> nat
    decreases s.len(),
{
    if s.len() == 0 {
        0
    } else {
        (s[0] % 128) as nat + 128 * chain_value(s.drop_first())
    }
}

/// The length of the integer that starts at `start`: the number of bytes up
/// to and including the first one whose continuation bit is clear. `None`
/// when `s` ends before such a byte.
pub open spec fn chain_len(s: Seq<u8>, start: int) -> Option<nat>
    decreases s.len() - start,
{
    if start < 0 || start >= s.len() {
        None
    } else if s[start] < 128 {
        Some(1nat)
    } else {
        match chain_len(s, start + 1) {
            Some(n) => Some(n + 1),
            None => None,
        }
    }
}

/// `s` holds one whole integer and nothing else: its last byte, and no
/// other, has the continuation bit clear.
pub open spec fn is_chain(s: Seq<u8>) -> bool {
    &&& s.len() >= 1
    &&& s[s.len() - 1] < 128
    &&& forall|i: int| 0 <= i < s.len() - 1 ==> s[i] >= 128
}

/// What decoding at `start` yields: the value, cut to its low 32 bits, and
/// the number of bytes taken. `None` when the integer does not end within
/// five bytes or within `s`.
pub open spec fn decoded(s: Seq<u8>, start: int) -> Option<(u32, nat)> {
    match chain_len(s, start) {
        Some(n) => if n <= MAX_VARINT_LEN {
            Some(((chain_value(s.subrange(start, start + n)) % 0x1_0000_0000) as u32, n))
        } else {
            None
        },
        None => None,
    }
}

/// What the continuation bit of a byte says.
pub open spec fn continuation_clear(b: u8) -> bool {
    b & 0x80 == 0
}

/// Calls `unsigned_varint::decode::is_last`, which tests the top bit of the
/// byte: it returns `true` exactly when that bit is clear.
#[verifier::external_body]
fn is_last(b: u8) -> (last: bool)
    ensures
        last == continuation_clear(b),
{
    unsigned_varint::decode::is_last(b)
}

/// Calls `unsigned_varint::encode::u32` on a scratch array of five bytes and
/// copies out the slice it returns. That function writes the low seven bits
/// of the number with the top bit set, shifts the number right by seven, and
/// stops, clearing the top bit of the byte just written, once nothing is
/// left: the bytes are `varint_bytes` of the number.
#[verifier::external_body]
fn encode_u32(value: u32) -> (out: Vec<u8>)
    ensures
        out@ == varint_bytes(value as nat),
{
    let mut scratch = [0u8; 5];
    unsigned_varint::encode::u32(value, &mut scratch).to_vec()
}

/// Whether `b` ends an integer.
pub fn is_last_byte(b: u8) -> (last: bool)
    ensures
        last == (b < 128),
{
    assert(continuation_clear(b) == (b < 128)) by (bit_vector);
    is_last(b)
}

/// Encodes `value`.
pub fn encode(value: u32) -> (out: Vec<u8>)
    ensures
        out@ == varint_bytes(value as nat),
        1 <= out@.len() <= MAX_VARINT_LEN,
        decoded(out@, 0) == Some((value, out@.len())),
{
    proof {
        lemma_varint_bytes_len(value);
        lemma_round_trip(value);
    }
    encode_u32(value)
}

/// The number of bytes that `encode` gives for `value`.
pub fn encoded_len(value: u32) -> (n: usize)
    ensures
        n == varint_bytes(value as nat).len(),
        1 <= n <= MAX_VARINT_LEN,
{
    proof {
        lemma_varint_bytes_chain(value as nat);
        lemma_varint_bytes_len(value);
        lemma_pow128_values();
        let len = varint_bytes(value as nat).len();
        if len >= 2 {
            lemma_pow128_monotonic(1, (len - 1) as nat);
        }
    }
    if value < 128 {
        1
    } else if value < 16384 {
        2
    } else if value < 2097152 {
        3
    } else if value < 268435456 {
        4
    } else {
        5
    }
}

/// Decodes the integer that starts at `offset` in `buf`, and says how many
/// bytes it took. Fails when none of the first five bytes from `offset` on
/// has its continuation bit clear, be it that the chain runs on or that
/// `buf` ends first. Nothing else is refused: a spelling with needless
/// groups is read as it stands, and of a five-byte integer the bits above
/// the 32nd are dropped.
pub fn decode(buf: &[u8], offset: usize) -> (res: Result<(u32, usize), ProbeError>)
    ensures
        match res {
            Ok((value, used)) => decoded(buf@, offset as int) == Some((value, used as nat)),
            Err(e) => e == ProbeError::MalformedVarint && decoded(buf@, offset as int) is None,
        },
{
    let ghost s = buf@;
    let mut value: u64 = 0;
    let mut scale: u64 = 1;
    let mut count: usize = 0;
    proof {
        lemma_pow128_values();
    }
    while count < MAX_VARINT_LEN && offset < buf.len() && count < buf.len() - offset
        invariant
            s == buf@,
            count <= MAX_VARINT_LEN,
            offset + count <= s.len() || count == 0,
            forall|j: int| offset <= j < offset + count ==> s[j] >= 128,
            count > 0 ==> value == chain_value(s.subrange(offset as int, offset + count)),
            count == 0 ==> value == 0,
            scale == pow128(count as nat),
            value < scale,
        decreases MAX_VARINT_LEN - count,
    {
        let b: u8 = buf[offset + count];
        let ghost taken = s.subrange(offset as int, offset + count);
        proof {
            lemma_pow128_values();
            lemma_chain_value_push(taken, b);
            assert(taken.push(b) =~= s.subrange(offset as int, offset + count + 1));
            assert(chain_value(taken) == value) by {
                if count == 0 {
                    assert(taken =~= Seq::<u8>::empty());
                }
            }
            assert((b % 128) * scale <= 127 * scale) by (nonlinear_arith)
                requires
                    b % 128 <= 127,
                    scale >= 0,
            ;
        }
        value = value + (b % 128) as u64 * scale;
        if is_last_byte(b) {
            proof {
                lemma_chain_len_iff(s, offset as int, (count + 1) as nat);
            }
            return Ok(((value % 0x1_0000_0000) as u32, count + 1));
        }
        scale = scale * 128;
        count = count + 1;
    }
    proof {
        match chain_len(s, offset as int) {
            Some(n) => {
                lemma_chain_len_iff(s, offset as int, n);
                if n <= MAX_VARINT_LEN {
                    assert(offset + n - 1 < offset + count);
                }
            },
            None => {},
        }
    }
    Err(ProbeError::MalformedVarint)
}

/// The characterization of `chain_len`: it is `n` exactly when the `n`
/// bytes from `start` lie within `s`, the last of them has its continuation
/// bit clear and the ones before it have it set.
pub proof fn lemma_chain_len_iff(s: Seq<u8>, start: int, n: nat)
    ensures
        chain_len(s, start) == Some(n) <==> {
            &&& n >= 1
            &&& 0 <= start
            &&& start + n <= s.len()
            &&& s[start + n - 1] < 128
            &&& forall|i: int| start <= i < start + n - 1 ==> s[i] >= 128
        },
    decreases s.len() - start,
{
    if start < 0 || start >= s.len() {
    } else if s[start] < 128 {
        if n > 1 {
            assert(start <= start < start + n - 1);
        }
    } else {
        if n >= 1 {
            lemma_chain_len_iff(s, start + 1, (n - 1) as nat);
        }
        if chain_len(s, start) == Some(n) {
            assert(n >= 2);
            assert forall|i: int| start <= i < start + n - 1 implies s[i] >= 128 by {
                if i > start {
                    assert(start + 1 <= i < start + 1 + (n - 1) - 1);
                }
            }
        }
        if n >= 1 && start + n <= s.len() && s[start + n - 1] < 128 && (forall|i: int|
            start <= i < start + n - 1 ==> s[i] >= 128) {
            assert(n >= 2);
            assert(chain_len(s, start + 1) == Some((n - 1) as nat));
        }
    }
}

/// The weights of the first six groups.
pub proof fn lemma_pow128_values()
    ensures
        pow128(0) == 1,
        pow128(1) == 128,
        pow128(2) == 16384,
        pow128(3) == 2097152,
        pow128(4) == 268435456,
        pow128(5) == 34359738368,
{
    reveal_with_fuel(pow128, 6);
}

/// Appending a group adds its seven bits at the weight of its position.
pub proof fn lemma_chain_value_push(s: Seq<u8>, b: u8)
    ensures
        chain_value(s.push(b)) == chain_value(s) + (b % 128) * pow128(s.len()),
    decreases s.len(),
{
    let t = s.push(b);
    let g = (b % 128) as int;
    if s.len() == 0 {
        assert(t.drop_first() =~= Seq::<u8>::empty());
        assert(chain_value(t.drop_first()) == 0);
        assert(t[0] == b);
        assert(chain_value(t) == g + 128 * chain_value(t.drop_first()));
        assert(pow128(0) == 1);
        assert(g * 1 == g);
    } else {
        let rest = s.drop_first();
        assert(t.drop_first() =~= rest.push(b));
        lemma_chain_value_push(rest, b);
        assert(t[0] == s[0]);
        assert(chain_value(t) == (s[0] % 128) + 128 * chain_value(rest.push(b)));
        assert(chain_value(s) == (s[0] % 128) + 128 * chain_value(rest));
        let w = pow128(rest.len()) as int;
        assert(pow128(s.len()) == 128 * w);
        assert(128 * (g * w) == g * (128 * w)) by (nonlinear_arith);
    }
}

/// The encoding of `v` is one whole integer that spells `v`.
pub proof fn lemma_varint_bytes_chain(v: nat)
    ensures
        is_chain(varint_bytes(v)),
        chain_value(varint_bytes(v)) == v,
        v < pow128(varint_bytes(v).len()),
        v >= 128 ==> v >= pow128((varint_bytes(v).len() - 1) as nat),
    decreases v,
{
    let s = varint_bytes(v);
    if v < 128 {
        assert(s =~= seq![v as u8]);
        assert(s[0] == v as u8);
        assert(s.drop_first() =~= Seq::<u8>::empty());
        assert(chain_value(s.drop_first()) == 0);
        assert(chain_value(s) == (s[0] % 128) + 128 * chain_value(s.drop_first()));
        reveal_with_fuel(pow128, 2);
    } else {
        let rest = varint_bytes(v / 128);
        let head = (128 + v % 128) as u8;
        lemma_varint_bytes_chain(v / 128);
        assert(s =~= seq![head] + rest);
        assert(s.len() == rest.len() + 1);
        assert(s[0] == head);
        assert(s.drop_first() =~= rest);
        assert(head % 128 == v % 128);
        assert(chain_value(s) == (s[0] % 128) + 128 * chain_value(s.drop_first()));
        assert forall|i: int| 0 <= i < s.len() - 1 implies s[i] >= 128 by {
            if i > 0 {
                assert(s[i] == rest[i - 1]);
            }
        }
        assert(s[s.len() - 1] == rest[rest.len() - 1]);
        assert(pow128(s.len()) == 128 * pow128(rest.len()));
        if v / 128 < 128 {
            reveal_with_fuel(pow128, 2);
            assert(rest.len() == 1);
        } else {
            assert(pow128((s.len() - 1) as nat) == 128 * pow128((rest.len() - 1) as nat));
        }
    }
}

/// The encoding of a 32-bit value takes between one and five bytes.
pub proof fn lemma_varint_bytes_len(v: u32)
    ensures
        1 <= varint_bytes(v as nat).len() <= MAX_VARINT_LEN,
{
    lemma_varint_bytes_chain(v as nat);
    lemma_pow128_values();
    let n = varint_bytes(v as nat).len();
    if n > 5 {
        lemma_pow128_monotonic(5, (n - 1) as nat);
    }
}

/// The weight of a group grows with its position.
pub proof fn lemma_pow128_monotonic(a: nat, b: nat)
    requires
        a <= b,
    ensures
        pow128(a) <= pow128(b),
        pow128(a) >= 1,
    decreases b,
{
    if a < b {
        lemma_pow128_monotonic(a, (b - 1) as nat);
    } else if a > 0 {
        lemma_pow128_monotonic((a - 1) as nat, (a - 1) as nat);
    }
}

/// An integer that is followed by other bytes still ends where it ended
/// alone, wherever in a buffer it stands.
pub proof fn lemma_chain_len_embedded(before: Seq<u8>, field: Seq<u8>, after: Seq<u8>)
    requires
        is_chain(field),
    ensures
        chain_len(before + field + after, before.len() as int) == Some(field.len()),
        (before + field + after).subrange(
            before.len() as int,
            (before.len() + field.len()) as int,
        ) == field,
{
    let s = before + field + after;
    let start = before.len() as int;
    lemma_chain_len_iff(s, start, field.len());
    assert forall|i: int| start <= i < start + field.len() implies s[i] == field[i - start] by {}
    assert(s.subrange(start, start + field.len()) =~= field);
}

/// Encoding then decoding gives the value back, together with the length
/// of its encoding, whatever follows the encoding in the buffer.
pub proof fn lemma_decode_encode(v: u32, after: Seq<u8>)
    ensures
        decoded(varint_bytes(v as nat) + after, 0) == Some(
            (v, varint_bytes(v as nat).len()),
        ),
{
    let field = varint_bytes(v as nat);
    let s = field + after;
    let n = field.len();
    lemma_varint_bytes_chain(v as nat);
    lemma_varint_bytes_len(v);
    lemma_chain_len_embedded(Seq::<u8>::empty(), field, after);
    assert(Seq::<u8>::empty() + field + after =~= s);
    assert(chain_len(s, 0) == Some(n));
    assert(s.subrange(0, 0 + n as int) == field);
    assert(chain_value(field) % 0x1_0000_0000 == v);
}

/// Decoding the encoding of a value gives the value back, and takes the
/// whole encoding.
pub proof fn lemma_round_trip(v: u32)
    ensures
        decoded(varint_bytes(v as nat), 0) == Some((v, varint_bytes(v as nat).len())),
{
    lemma_decode_encode(v, Seq::<u8>::empty());
    assert(varint_bytes(v as nat) + Seq::<u8>::empty() =~= varint_bytes(v as nat));
}

/// No two values share an encoding.
pub proof fn lemma_encoding_injective(a: u32, b: u32)
    requires
        varint_bytes(a as nat) == varint_bytes(b as nat),
    ensures
        a == b,
{
    lemma_varint_bytes_chain(a as nat);
    lemma_varint_bytes_chain(b as nat);
}

/// The encoding is the shortest spelling of its value: any whole integer
/// whose groups spell `v` has at least as many bytes, and one of the same
/// length is the encoding itself.
pub proof fn lemma_encoding_minimal(v: nat, s: Seq<u8>)
    requires
        is_chain(s),
        chain_value(s) == v,
    ensures
        varint_bytes(v).len() <= s.len(),
        varint_bytes(v).len() == s.len() ==> s == varint_bytes(v),
    decreases s.len(),
{
    let rest = s.drop_first();
    assert(v == s[0] % 128 + 128 * chain_value(rest));
    if s.len() == 1 {
        assert(rest =~= Seq::<u8>::empty());
        assert(chain_value(rest) == 0);
        assert(s =~= seq![v as u8]);
    } else {
        assert(s[0] >= 128);
        assert(is_chain(rest)) by {
            assert(rest[rest.len() - 1] == s[s.len() - 1]);
            assert forall|i: int| 0 <= i < rest.len() - 1 implies rest[i] >= 128 by {
                assert(rest[i] == s[i + 1]);
            }
        }
        lemma_encoding_minimal(chain_value(rest), rest);
        if v < 128 {
            assert(chain_value(rest) == 0);
        } else {
            assert(v / 128 == chain_value(rest));
            assert(v % 128 == s[0] % 128);
            if varint_bytes(v).len() == s.len() {
                assert(varint_bytes(v / 128) == rest);
                assert(s[0] == (128 + v % 128) as u8);
                assert(s =~= seq![(128 + v % 128) as u8] + rest);
            }
        }
    }
}

} // verus!
