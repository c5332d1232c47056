//! The variable-length encoding of an integer that serves as the node's digest.
//!
//! The encoding is LEB128: seven bits to a byte, the low bits first, and the
//! high bit of a byte set where another byte follows.

use vstd::prelude::*;

verus! {

/// The length of the digest that the node reports before its first commit,
/// in bytes. No encoding of a `u64` is longer.
pub const MAX_VARINT_LENGTH: usize = 16;

/// The LEB128 encoding of `value`.
pub open spec fn varint(value: nat) -> Seq<u8>
    decreases value,
{
    if value < 128 {
        seq![value as u8]
    } else {
        seq![(value % 128 + 128) as u8] + varint(value / 128)
    }
}

/// Calls `prost::encoding::encode_varint` on an empty `bytes::BytesMut` and
/// copies out what it wrote. The contract claims that this is the LEB128
/// encoding of `value`. The encoder stops after ten bytes at the latest; by
/// [`lemma_varint_of_u64_is_short`] no encoding of a `u64` needs more, so it
/// always writes the encoding to its end.
#[verifier::external_body]
pub(crate) fn encode_varint(value: u64) -> (out: Vec<u8>)
    ensures
        out@ == varint(value as nat),
{
    let mut buffer = bytes::BytesMut::with_capacity(MAX_VARINT_LENGTH);
    prost::encoding::encode_varint(value, &mut buffer);
    buffer.to_vec()
}

/// An encoding is never empty. It is a single byte exactly where the value is
/// below 128, and exactly then its first byte is below 128.
pub proof fn lemma_varint_shape(value: nat)
    ensures
        varint(value).len() >= 1,
        varint(value).len() == 1 <==> value < 128,
        varint(value)[0] < 128 <==> value < 128,
    decreases value,
{
    if value >= 128 {
        lemma_varint_shape(value / 128);
    }
}

/// Two integers with the same encoding are the same integer.
pub proof fn lemma_varint_injective(a: nat, b: nat)
    requires
        varint(a) == varint(b),
    ensures
        a == b,
    decreases a,
{
    lemma_varint_shape(a);
    lemma_varint_shape(b);
    if a < 128 {
        assert(varint(a)[0] == a);
        assert(varint(b)[0] == b);
    } else {
        let head_a = seq![(a % 128 + 128) as u8];
        let head_b = seq![(b % 128 + 128) as u8];
        assert(varint(a) == head_a + varint(a / 128));
        assert(varint(b) == head_b + varint(b / 128));
        assert(varint(a)[0] == (a % 128 + 128) as u8);
        assert(varint(b)[0] == (b % 128 + 128) as u8);
        assert(varint(a / 128) =~= varint(a).subrange(1, varint(a).len() as int));
        assert(varint(b / 128) =~= varint(b).subrange(1, varint(b).len() as int));
        lemma_varint_injective(a / 128, b / 128);
    }
}

/// 128 to the power of `bytes`: the least value whose encoding is longer than
/// `bytes` bytes.
pub open spec fn limit(bytes: nat) -> nat
    decreases bytes,
{
    if bytes == 0 {
        1
    } else {
        128 * limit((bytes - 1) as nat)
    }
}

/// A value below `limit(bytes)` is encoded in at most `bytes` bytes.
pub proof fn lemma_varint_length(value: nat, bytes: nat)
    requires
        bytes >= 1,
        value < limit(bytes),
    ensures
        varint(value).len() <= bytes,
    decreases bytes,
{
    if value >= 128 {
        assert(limit(1) == 128) by {
            reveal_with_fuel(limit, 2);
        }
        assert(bytes >= 2);
        lemma_varint_length(value / 128, (bytes - 1) as nat);
    }
}

/// The encoding of a `u64` is at most ten bytes long.
pub proof fn lemma_varint_of_u64_is_short(value: u64)
    ensures
        1 <= varint(value as nat).len() <= 10,
{
    assert(limit(10) == 0x40_0000_0000_0000_0000) by {
        reveal_with_fuel(limit, 11);
    }
    lemma_varint_length(value as nat, 10);
    lemma_varint_shape(value as nat);
}

} // verus!
