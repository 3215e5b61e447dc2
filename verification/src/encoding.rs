//! Byte-string encodings of secp256k1 scalars, keys and signatures.
//!
//! A scalar is serialized as a 32-byte big-endian integer. A signing key is one
//! non-zero scalar below the group order; a signature is two of them, `r` then
//! `s`; a verifying key is a compressed curve point: a parity tag and the
//! point's `x` coordinate.

use vstd::prelude::*;

verus! {

/// Bytes taken by one serialized scalar, and so by a signing key.
pub const SIGNING_KEY_LENGTH: usize = 32;

/// Bytes taken by a compressed curve point, and so by a verifying key.
pub const VERIFYING_KEY_LENGTH: usize = 33;

/// Bytes taken by a signature.
pub const SIGNATURE_LENGTH: usize = 64;

/// The order of the secp256k1 group, serialized as a scalar. It is the least
/// 32-byte string, read as a number, that is too large to be a scalar.
pub const GROUP_ORDER: [u8; 32] = [
    0xff, 0xff, 0xff, 0xff, 0xff, 0xff, 0xff, 0xff,
    0xff, 0xff, 0xff, 0xff, 0xff, 0xff, 0xff, 0xfe,
    0xba, 0xae, 0xdc, 0xe6, 0xaf, 0x48, 0xa0, 0x3b,
    0xbf, 0xd2, 0x5e, 0x8c, 0xd0, 0x36, 0x41, 0x41,
];

/// The order of the secp256k1 group.
pub open spec fn group_order() -> nat {
    0xFFFFFFFFFFFFFFFFFFFFFFFFFFFFFFFEBAAEDCE6AF48A03BBFD25E8CD0364141nat
}

/// The natural number that `bytes` spells in base 256, most significant byte first.
pub open spec fn be_nat(bytes: Seq<u8>) -> nat
    decreases bytes.len(),
{
    if bytes.len() == 0 {
        0
    } else {
        be_nat(bytes.drop_last()) * 256 + bytes.last() as nat
    }
}

/// `bytes` serializes a non-zero scalar of the group.
pub open spec fn is_scalar(bytes: Seq<u8>) -> bool {
    &&& bytes.len() == SIGNING_KEY_LENGTH
    &&& 0 < be_nat(bytes) < group_order()
}

/// `bytes` is a well-formed signing key.
pub open spec fn is_signing_key(bytes: Seq<u8>) -> bool {
    is_scalar(bytes)
}

/// `bytes` is a well-formed signature: the scalar `r` followed by the scalar `s`.
pub open spec fn is_signature(bytes: Seq<u8>) -> bool {
    &&& bytes.len() == SIGNATURE_LENGTH
    &&& is_scalar(bytes.subrange(0, SIGNING_KEY_LENGTH as int))
    &&& is_scalar(bytes.subrange(SIGNING_KEY_LENGTH as int, SIGNATURE_LENGTH as int))
}

/// `bytes` has the shape of a compressed curve point: 33 bytes, the first of
/// which says whether the point's `y` coordinate is even (2) or odd (3).
pub open spec fn is_compressed_point(bytes: Seq<u8>) -> bool {
    &&& bytes.len() == VERIFYING_KEY_LENGTH
    &&& (bytes[0] == 2 || bytes[0] == 3)
}

/// `GROUP_ORDER` spells the group order.
pub proof fn lemma_group_order_bytes()
    ensures
        be_nat(GROUP_ORDER@) == group_order(),
{
    reveal_with_fuel(be_nat, 33);
}

/// A string of zero bytes spells zero, whatever its length.
pub proof fn lemma_zeros_spell_zero(bytes: Seq<u8>)
    requires
        forall|i: int| 0 <= i < bytes.len() ==> bytes[i] == 0,
    ensures
        be_nat(bytes) == 0,
    decreases bytes.len(),
{
    if bytes.len() > 0 {
        lemma_zeros_spell_zero(bytes.drop_last());
    }
}

} // verus!
