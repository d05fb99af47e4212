use vstd::prelude::*;
use k256::ecdsa::{RecoveryId, Signature, SigningKey, VerifyingKey};
use ripemd::Ripemd160;
use sha2::{Digest, Sha256, Sha512_256};

verus! {

/// The SHA-512/256 digest of a byte string.
pub uninterp spec fn sha512_256_of(data: Seq<u8>) -> Seq<u8>;

/// The SHA-256 digest of a byte string.
pub uninterp spec fn sha256_of(data: Seq<u8>) -> Seq<u8>;

/// The RIPEMD-160 digest of a byte string.
pub uninterp spec fn ripemd160_of(data: Seq<u8>) -> Seq<u8>;

/// The compressed SEC1 encoding of the secp256k1 public key of a secret scalar.
pub uninterp spec fn compressed_pubkey_of(secret: Seq<u8>) -> Seq<u8>;

/// The recoverable secp256k1 signature (recovery id, then r and s) that a secret
/// key makes over a 32-byte digest.
pub uninterp spec fn recoverable_signature_of(secret: Seq<u8>, digest: Seq<u8>) -> Seq<u8>;

/// The compressed SEC1 encoding of the public key recovered from a recoverable
/// signature over a 32-byte digest.
pub uninterp spec fn recovered_pubkey_of(signature: Seq<u8>, digest: Seq<u8>) -> Seq<u8>;

/// Whether a secret key signs a 32-byte digest without error.
pub uninterp spec fn signs_ok_of(secret: Seq<u8>, digest: Seq<u8>) -> bool;

/// Whether a public key can be recovered from a recoverable signature (recovery id,
/// then r and s) over a 32-byte digest.
pub uninterp spec fn recovers_of(signature: Seq<u8>, digest: Seq<u8>) -> bool;

/// The unsigned integer that a byte string encodes, most significant byte first.
pub open spec fn be_value(b: Seq<u8>) -> nat
    decreases b.len(),
{
    if b.len() == 0 {
        0
    } else {
        be_value(b.drop_last()) * 256 + (b.last() as nat)
    }
}

/// The order of the secp256k1 group.
pub open spec fn secp256k1_order() -> nat {
    be_value(
        seq![
            0xffu8, 0xffu8, 0xffu8, 0xffu8, 0xffu8, 0xffu8, 0xffu8, 0xffu8,
            0xffu8, 0xffu8, 0xffu8, 0xffu8, 0xffu8, 0xffu8, 0xffu8, 0xfeu8,
            0xbau8, 0xaeu8, 0xdcu8, 0xe6u8, 0xafu8, 0x48u8, 0xa0u8, 0x3bu8,
            0xbfu8, 0xd2u8, 0x5eu8, 0x8cu8, 0xd0u8, 0x36u8, 0x41u8, 0x41u8,
        ],
    )
}

/// Whether 32 bytes name a secret scalar: above zero and below the group order.
pub open spec fn valid_secret(secret: Seq<u8>) -> bool {
    &&& secret.len() == 32
    &&& 0 < be_value(secret)
    &&& be_value(secret) < secp256k1_order()
}

/// RIPEMD-160 over SHA-256: the hash that names a public key.
pub open spec fn hash160_of(data: Seq<u8>) -> Seq<u8> {
    ripemd160_of(sha256_of(data))
}

/// Relies on sha2::Sha512_256::digest: the SHA-512/256 digest of the bytes.
#[verifier::external_body]
pub(crate) fn sha512_256(data: &[u8]) -> (r: [u8; 32])
    ensures
        r@ == sha512_256_of(data@),
{
    Sha512_256::digest(data).into()
}

/// Relies on sha2::Sha256::digest: the SHA-256 digest of the bytes.
#[verifier::external_body]
pub(crate) fn sha256(data: &[u8]) -> (r: [u8; 32])
    ensures
        r@ == sha256_of(data@),
{
    Sha256::digest(data).into()
}

/// Relies on ripemd::Ripemd160::digest: the RIPEMD-160 digest of the bytes.
#[verifier::external_body]
pub(crate) fn ripemd160(data: &[u8]) -> (r: [u8; 20])
    ensures
        r@ == ripemd160_of(data@),
{
    Ripemd160::digest(data).into()
}

/// Relies on k256's SigningKey::from_slice, which takes a big-endian scalar and
/// refuses zero and values not below the group order, and on
/// VerifyingKey::to_encoded_point(true), which gives the 33-byte compressed key.
#[verifier::external_body]
pub(crate) fn compressed_public_key(secret: &[u8; 32]) -> (r: Option<[u8; 33]>)
    ensures
        r is Some <==> valid_secret(secret@),
        r matches Some(p) ==> p@ == compressed_pubkey_of(secret@),
{
    let key = SigningKey::from_slice(secret).ok()?;
    let point = key.verifying_key().to_encoded_point(true);
    point.as_bytes().try_into().ok()
}

/// Relies on k256's SigningKey::sign_prehash_recoverable (deterministic, RFC 6979):
/// the recovery id byte followed by the 64 bytes of r and s. Recovering with the
/// id that the signer returns gives the signer's public key.
#[verifier::external_body]
pub(crate) fn sign_recoverable(secret: &[u8; 32], digest: &[u8; 32]) -> (r: Option<[u8; 65]>)
    ensures
        r is Some <==> signs_ok_of(secret@, digest@),
        r matches Some(s) ==> s@ == recoverable_signature_of(secret@, digest@),
        r matches Some(s) ==> recovers_of(s@, digest@) && recovered_pubkey_of(s@, digest@)
            == compressed_pubkey_of(secret@),
{
    let key = SigningKey::from_slice(secret).ok()?;
    let (sig, recid) = key.sign_prehash_recoverable(digest).ok()?;
    let mut out = [0u8; 65];
    out[0] = recid.to_byte();
    out[1..].copy_from_slice(&sig.to_bytes());
    Some(out)
}

/// Relies on k256's VerifyingKey::recover_from_prehash, which also checks that the
/// signature verifies under the recovered key: its compressed encoding, or `None`.
#[verifier::external_body]
pub(crate) fn recover_public_key(signature: &[u8; 65], digest: &[u8; 32]) -> (r: Option<[u8; 33]>)
    ensures
        r is Some <==> recovers_of(signature@, digest@),
        r matches Some(p) ==> p@ == recovered_pubkey_of(signature@, digest@),
{
    let recid = RecoveryId::from_byte(signature[0])?;
    let sig = Signature::from_slice(&signature[1..]).ok()?;
    let key = VerifyingKey::recover_from_prehash(digest, &sig, recid).ok()?;
    key.to_encoded_point(true).as_bytes().try_into().ok()
}

/// The hash160 of a byte string.
pub fn hash160(data: &[u8]) -> (r: [u8; 20])
    ensures
        r@ == hash160_of(data@),
{
    let inner = sha256(data);
    ripemd160(&inner)
}

} // verus!
