//! Fixed-width byte strings that name workers, keys, accounts and binaries.

use vstd::prelude::*;

verus! {

/// Identity of a worker: its sr25519 public key.
#[derive(Clone, Copy, Debug, PartialEq, Eq)]
pub struct WorkerPublicKey(pub [u8; 32]);

/// Public key a worker offers for ECDH key agreement.
#[derive(Clone, Copy, Debug, PartialEq, Eq)]
pub struct EcdhPublicKey(pub [u8; 32]);

/// Public half of the network's master key.
#[derive(Clone, Copy, Debug, PartialEq, Eq)]
pub struct MasterPublicKey(pub [u8; 32]);

/// Account that may control a worker.
#[derive(Clone, Copy, Debug, PartialEq, Eq)]
pub struct AccountId(pub [u8; 32]);

/// A 256-bit digest.
#[derive(Clone, Copy, Debug, PartialEq, Eq)]
pub struct H256(pub [u8; 32]);

/// Byte-wise comparison of two 32-byte strings.
pub fn bytes32_eq(a: &[u8; 32], b: &[u8; 32]) -> (same: bool)
    ensures
        same == (*a == *b),
{
    let mut i: usize = 0;
    while i < 32
        invariant
            i <= 32,
            forall|j: int| 0 <= j < i ==> a[j] == b[j],
        decreases 32 - i,
    {
        if a[i] != b[i] {
            return false;
        }
        i += 1;
    }
    assert(*a =~= *b);
    true
}

impl WorkerPublicKey {
    /// Whether two identities are the same key.
    pub fn same(&self, other: &WorkerPublicKey) -> (same: bool)
        ensures
            same == (*self == *other),
    {
        bytes32_eq(&self.0, &other.0)
    }
}

impl MasterPublicKey {
    /// Whether two master public keys are the same key.
    pub fn same(&self, other: &MasterPublicKey) -> (same: bool)
        ensures
            same == (*self == *other),
    {
        bytes32_eq(&self.0, &other.0)
    }
}

impl H256 {
    /// Whether two digests are equal.
    pub fn same(&self, other: &H256) -> (same: bool)
        ensures
            same == (*self == *other),
    {
        bytes32_eq(&self.0, &other.0)
    }
}

} // verus!
