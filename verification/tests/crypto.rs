use sp_core::Pair;
use tee_worker::crypto::{check_signature, SIGNATURE_LEN};
use tee_worker::keys::bytes32_eq;
use tee_worker::{Error, MasterPublicKey, WorkerPublicKey, H256};

#[test]
fn check_signature_accepts_what_the_signer_signed() {
    let pair = sp_core::sr25519::Pair::from_seed(&[11; 32]);
    let signer = WorkerPublicKey(pair.public().0);
    let message = b"a message of some length".to_vec();
    let signature = pair.sign(&message);
    assert_eq!(SIGNATURE_LEN, 64);
    assert_eq!(signature.0.len(), SIGNATURE_LEN);
    assert_eq!(check_signature(&signature.0, &message, &signer), Ok(()));
    assert_eq!(check_signature(&signature.0, b"", &signer), Err(Error::InvalidSignature));
    let empty = pair.sign(b"");
    assert_eq!(check_signature(&empty.0, b"", &signer), Ok(()));
    assert_eq!(check_signature(&empty.0, &message, &signer), Err(Error::InvalidSignature));
}

#[test]
fn check_signature_rejects_a_flipped_bit() {
    let pair = sp_core::sr25519::Pair::from_seed(&[11; 32]);
    let signer = WorkerPublicKey(pair.public().0);
    let message = b"a message of some length".to_vec();
    let mut signature = pair.sign(&message).0;
    signature[10] ^= 1;
    assert_eq!(check_signature(&signature, &message, &signer), Err(Error::InvalidSignature));
    let signature = pair.sign(&message).0;
    let mut other = signer;
    other.0[0] ^= 1;
    assert_eq!(check_signature(&signature, &message, &other), Err(Error::InvalidSignature));
}

#[test]
fn check_signature_rejects_other_lengths() {
    let pair = sp_core::sr25519::Pair::from_seed(&[11; 32]);
    let signer = WorkerPublicKey(pair.public().0);
    let message = b"m".to_vec();
    let signature = pair.sign(&message).0;
    for len in [0usize, 1, 32, 63] {
        assert_eq!(
            check_signature(&signature[..len], &message, &signer),
            Err(Error::InvalidSignatureLength)
        );
    }
    let mut long = signature.to_vec();
    long.extend_from_slice(&[0, 0]);
    assert_eq!(check_signature(&long[..65], &message, &signer), Err(Error::InvalidSignatureLength));
    assert_eq!(check_signature(&long, &message, &signer), Err(Error::InvalidSignatureLength));
    assert_eq!(check_signature(&long[..64], &message, &signer), Ok(()));
}

#[test]
fn byte_strings_compare_byte_by_byte() {
    let a = [7u8; 32];
    let mut b = [7u8; 32];
    assert!(bytes32_eq(&a, &b));
    b[31] = 8;
    assert!(!bytes32_eq(&a, &b));
    b[31] = 7;
    b[0] = 6;
    assert!(!bytes32_eq(&a, &b));
    assert!(WorkerPublicKey(a).same(&WorkerPublicKey(a)));
    assert!(!WorkerPublicKey(a).same(&WorkerPublicKey(b)));
    assert!(MasterPublicKey(a).same(&MasterPublicKey(a)));
    assert!(!MasterPublicKey(a).same(&MasterPublicKey(b)));
    assert!(H256(b).same(&H256(b)));
    assert!(!H256(a).same(&H256(b)));
}
