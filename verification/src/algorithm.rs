//! The signature scheme that the procedures run on: ECDSA over secp256k1 with
//! SHA-256, as the `crypto` crate implements it.
//!
//! Nothing in this file is proved. It declares the scheme's types, names what
//! its operations compute, and states of each operation what the procedures
//! rely on.

use crate::encoding::is_compressed_point;
use crate::encoding::is_signature;
use crate::encoding::is_signing_key;
use crate::encoding::SIGNING_KEY_LENGTH;
use crypto::signatures::secp256k1_ecdsa::PublicKey as VerifyingKey;
use crypto::signatures::secp256k1_ecdsa::SecretKey;
use crypto::signatures::secp256k1_ecdsa::Signature;
use vstd::prelude::*;

verus! {

/// `secp256k1_ecdsa::SecretKey`, a parsed signing key. It wipes itself when it
/// is dropped.
#[verifier::external_type_specification]
#[verifier::external_body]
pub struct ExSecretKey(SecretKey);

/// `secp256k1_ecdsa::PublicKey`, the verifying key of a signing key.
#[verifier::external_type_specification]
#[verifier::external_body]
pub struct ExVerifyingKey(VerifyingKey);

/// `secp256k1_ecdsa::Signature`, a parsed signature.
#[verifier::external_type_specification]
#[verifier::external_body]
pub struct ExSignature(Signature);

/// `crypto::Error`, with which the scheme's operations fail. The procedures
/// tell only that there was one.
#[verifier::external_type_specification]
#[verifier::external_body]
pub struct ExError(crypto::Error);

/// The 32 bytes that a parsed signing key holds: its scalar, most significant
/// byte first.
pub uninterp spec fn secret_key_bytes(key: SecretKey) -> Seq<u8>;

/// The 33 bytes that a verifying key holds: its curve point, compressed.
pub uninterp spec fn public_key_bytes(key: VerifyingKey) -> Seq<u8>;

/// The 64 bytes that a parsed signature holds: the scalar `r`, then the scalar
/// `s`.
pub uninterp spec fn signature_bytes(signature: Signature) -> Seq<u8>;

/// The verifying key that belongs to a signing key, both by their bytes: what
/// `SecretKey::public_key` computes.
pub uninterp spec fn verifying_key_of(signing_key: Seq<u8>) -> Seq<u8>;

/// The signature of `msg` under `signing_key`, or `None` where the scheme
/// yields none for the two: what `SecretKey::try_sign_sha256` computes.
pub uninterp spec fn signature_of(signing_key: Seq<u8>, msg: Seq<u8>) -> Option<Seq<u8>>;

/// Whether `signature` is accepted for `msg` under `verifying_key`: what
/// `PublicKey::verify_sha256` computes.
pub uninterp spec fn accepts(verifying_key: Seq<u8>, msg: Seq<u8>, signature: Seq<u8>) -> bool;

/// `SecretKey::try_from_bytes`, on a slice of the key's length. It succeeds
/// exactly on the big-endian encodings of the integers from 1 up to, and not
/// including, the group order, and the key then holds the bytes it was given.
#[verifier::external_body]
pub(crate) fn secret_key_from_bytes(bytes: &[u8]) -> (r: Result<SecretKey, crypto::Error>)
    requires
        bytes@.len() == SIGNING_KEY_LENGTH,
    ensures
        r is Ok <==> is_signing_key(bytes@),
        r matches Ok(key) ==> secret_key_bytes(key) == bytes@,
{
    SecretKey::try_from_bytes(bytes.try_into().unwrap())
}

/// `SecretKey::public_key`: the verifying key is a function of the signing
/// key's bytes alone.
pub assume_specification[ SecretKey::public_key ](key: &SecretKey) -> (r: VerifyingKey)
    ensures
        public_key_bytes(r) == verifying_key_of(secret_key_bytes(*key)),
;

/// `PublicKey::to_bytes`: the key's curve point in compressed form, which is a
/// parity tag of 2 or 3 and the 32 bytes of the `x` coordinate.
#[verifier::external_body]
pub(crate) fn encode_public_key(key: &VerifyingKey) -> (r: Vec<u8>)
    ensures
        r@ == public_key_bytes(*key),
        is_compressed_point(r@),
{
    key.to_bytes().to_vec()
}

/// `SecretKey::try_sign_sha256`, without the recovery id. The signature is
/// deterministic: a function of the key's bytes and the message alone. Where
/// there is one, it is well formed, and the key's verifying key accepts it for
/// the message that was signed.
#[verifier::external_body]
pub(crate) fn sign_sha256(key: &SecretKey, msg: &[u8]) -> (r: Result<Signature, crypto::Error>)
    ensures
        r matches Ok(signature) ==> signature_of(secret_key_bytes(*key), msg@) == Some(
            signature_bytes(signature),
        ),
        r matches Ok(signature) ==> is_signature(signature_bytes(signature)),
        r matches Ok(signature) ==> accepts(
            verifying_key_of(secret_key_bytes(*key)),
            msg@,
            signature_bytes(signature),
        ),
        r is Err ==> signature_of(secret_key_bytes(*key), msg@) is None,
{
    match key.try_sign_sha256(msg) {
        Ok(recoverable) => Ok(recoverable.as_ref().clone()),
        Err(e) => Err(e),
    }
}

/// `Signature::try_from_slice`. It succeeds exactly on 64 bytes whose halves
/// each encode an integer from 1 up to, and not including, the group order, and
/// the signature then holds the bytes it was given.
pub assume_specification[ Signature::try_from_slice ](sig: &[u8]) -> (r: Result<
    Signature,
    crypto::Error,
>)
    ensures
        r is Ok <==> is_signature(sig@),
        r matches Ok(signature) ==> signature_bytes(signature) == sig@,
;

/// `Signature::to_bytes`: the bytes that the signature holds.
#[verifier::external_body]
pub(crate) fn encode_signature(signature: &Signature) -> (r: Vec<u8>)
    ensures
        r@ == signature_bytes(*signature),
{
    signature.to_bytes().to_vec()
}

/// `PublicKey::verify_sha256`: a function of the key's bytes, the message and
/// the signature's bytes alone.
pub assume_specification[ VerifyingKey::verify_sha256 ](
    key: &VerifyingKey,
    sig: &Signature,
    msg: &[u8],
) -> (r: bool)
    ensures
        r == accepts(public_key_bytes(*key), msg@, signature_bytes(*sig)),
;

/// `crypto::utils::rand::fill`: overwrites the buffer with bytes from the
/// operating system's generator, or reports that the generator failed. Of the
/// bytes themselves nothing is known.
pub assume_specification[ crypto::utils::rand::fill ](bs: &mut [u8]) -> (r: Result<
    (),
    crypto::Error,
>)
    ensures
        final(bs)@.len() == old(bs)@.len(),
;

} // verus!
