//! Signatures and digests, computed by `sp_io` and `sp_core`.

use crate::error::Error;
use crate::keys::WorkerPublicKey;
use crate::model::signed_by;
use vstd::prelude::*;

verus! {

/// Length of an sr25519 signature in bytes.
pub const SIGNATURE_LEN: usize = 64;

/// Whether the 64 bytes of `signature` are a valid sr25519 signature of
/// `message` under the 32 bytes of `public_key`, in the signing context that
/// `sp_core` fixes.
pub uninterp spec fn sr25519_valid(signature: Seq<u8>, message: Seq<u8>, public_key: Seq<u8>) -> bool;

/// The BLAKE2b-256 digest of `data`.
pub uninterp spec fn blake2_256_of(data: Seq<u8>) -> [u8; 32];

/// Calls `sp_io::crypto::sr25519_verify`, which hands the three values to
/// `sp_core::sr25519::Pair::verify`. Trusted: the answer depends on the three
/// byte strings alone, so that it can be given a name.
#[verifier::external_body]
pub(crate) fn sr25519_verify(signature: &[u8; 64], message: &[u8], public_key: &[u8; 32]) -> (valid: bool)
    ensures
        valid == sr25519_valid(signature@, message@, public_key@),
{
    let sig = sp_core::sr25519::Signature::from_raw(*signature);
    let public = sp_core::sr25519::Public::from_raw(*public_key);
    sp_io::crypto::sr25519_verify(&sig, message, &public)
}

/// Calls `try_from` of `sp_core::sr25519::Signature` on a slice. Trusted:
/// the conversion succeeds exactly on 64 bytes, and then keeps every byte.
#[verifier::external_body]
pub(crate) fn signature_from_slice(bytes: &[u8]) -> (signature: Option<[u8; 64]>)
    ensures
        signature.is_some() == (bytes@.len() == 64),
        signature.is_some() ==> signature.unwrap()@ == bytes@,
{
    match sp_core::sr25519::Signature::try_from(bytes) {
        Ok(sig) => Some(sig.0),
        Err(_) => None,
    }
}

/// Calls `sp_io::hashing::blake2_256`. Trusted: the digest depends on the
/// bytes alone, so that it can be given a name.
#[verifier::external_body]
pub(crate) fn blake2_256(data: &[u8]) -> (digest: [u8; 32])
    ensures
        digest == blake2_256_of(data@),
{
    sp_io::hashing::blake2_256(data)
}

/// Checks that `signature` is a signature of `signer` over `content`.
pub fn check_signature(signature: &[u8], content: &[u8], signer: &WorkerPublicKey) -> (checked:
    Result<(), Error>)
    ensures
        checked == signed_by(signature@, content@, *signer),
{
    if signature.len() != SIGNATURE_LEN {
        return Err(Error::InvalidSignatureLength);
    }
    match signature_from_slice(signature) {
        None => Err(Error::MalformedSignature),
        Some(raw) => {
            if sr25519_verify(&raw, content, &signer.0) {
                Ok(())
            } else {
                Err(Error::InvalidSignature)
            }
        },
    }
}

} // verus!
