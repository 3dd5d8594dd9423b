use ed25519_dalek::{Signer, SigningKey};
use sha2::Digest;
use styx_bridge::bridge::ClaimableBalanceContract;
use styx_bridge::encoding::{encode_batch, encode_valset, make_batch_hash, make_checkpoint, ValsetArgs};
use styx_bridge::error::BridgeError;
use styx_bridge::quorum::{check_quorum, verify_signature, SignatureEntry};

const CHAIN: [u8; 32] = [9u8; 32];
const TOKEN: [u8; 32] = [5u8; 32];

fn signer(i: u8) -> SigningKey {
    SigningKey::from_bytes(&[i + 1; 32])
}

fn valset(powers: Vec<u32>) -> ValsetArgs {
    let validators = (0..powers.len() as u8)
        .map(|i| signer(i).verifying_key().to_bytes())
        .collect();
    ValsetArgs {
        validators,
        powers,
        valset_nonce: 0,
        reward_amount: 0,
        reward_token: [0u8; 32],
    }
}

fn three_validators() -> ValsetArgs {
    valset(vec![1_500_000_000, 1_500_000_000, 1_500_000_000])
}

fn initialized(v: &ValsetArgs) -> ClaimableBalanceContract {
    let mut c = ClaimableBalanceContract::new(100);
    c.initialize(CHAIN, v.clone()).unwrap();
    c
}

struct Batch {
    amounts: Vec<i128>,
    destinations: Vec<[u8; 32]>,
    fees: Vec<i128>,
    nonce: u32,
    timeout: u32,
}

fn batch(nonce: u32, timeout: u32) -> Batch {
    Batch {
        amounts: vec![10, 20],
        destinations: vec![[1u8; 32], [2u8; 32]],
        fees: vec![1, 1],
        nonce,
        timeout,
    }
}

fn hash_of(b: &Batch) -> [u8; 32] {
    make_batch_hash(&CHAIN, &b.amounts, &b.destinations, &b.fees, b.nonce, &TOKEN, b.timeout)
}

fn sign(v: &ValsetArgs, b: &Batch, signers: &[usize]) -> Vec<SignatureEntry> {
    let msg = hash_of(b);
    (0..v.validators.len())
        .map(|i| {
            if signers.contains(&i) {
                SignatureEntry { present: true, signature: signer(i as u8).sign(&msg).to_bytes() }
            } else {
                SignatureEntry { present: false, signature: [0u8; 64] }
            }
        })
        .collect()
}

fn submit(
    c: &mut ClaimableBalanceContract,
    v: &ValsetArgs,
    sigs: &Vec<SignatureEntry>,
    b: &Batch,
    now: u32,
) -> Result<u32, BridgeError> {
    c.submit_batch(v, sigs, &b.amounts, &b.destinations, &b.fees, b.nonce, &TOKEN, b.timeout, now)
}

#[test]
fn initialize_with_three_validators_and_quorum_of_two() {
    let v = three_validators();
    let mut c = ClaimableBalanceContract::new(100);
    let update = c.initialize(CHAIN, v.clone()).unwrap();
    assert_eq!(update.event_nonce, 0);
    assert_eq!(update.validators, v.validators);
    assert_eq!(update.powers, v.powers);
    assert_eq!(Some(update.checkpoint), c.get_checkpoint());

    let b = batch(1, 500);
    let one = sign(&v, &b, &[0]);
    assert_eq!(submit(&mut c, &v, &one, &b, 10), Err(BridgeError::InsufficientQuorumPower));
    assert_eq!(c.batch_nonce, 0);
    let two = sign(&v, &b, &[0, 2]);
    assert_eq!(submit(&mut c, &v, &two, &b, 10), Ok(1));
    assert_eq!(c.batch_nonce, 1);
}

#[test]
fn timed_out_batch_is_refused_despite_quorum() {
    let v = three_validators();
    let mut c = initialized(&v);
    let b = batch(1, 10);
    let all = sign(&v, &b, &[0, 1, 2]);
    assert_eq!(submit(&mut c, &v, &all, &b, 10), Err(BridgeError::BatchTimedOut));
    assert_eq!(submit(&mut c, &v, &all, &b, 11), Err(BridgeError::BatchTimedOut));
    assert_eq!(submit(&mut c, &v, &all, &b, 9), Ok(1));
}

#[test]
fn second_initialize_is_refused() {
    let v = three_validators();
    let mut c = initialized(&v);
    let before = c.get_checkpoint();
    assert_eq!(c.initialize(CHAIN, v.clone()).err(), Some(BridgeError::AlreadyInitialized));
    let empty = valset(vec![]);
    assert_eq!(c.initialize([0u8; 32], empty).err(), Some(BridgeError::AlreadyInitialized));
    assert_eq!(c.get_checkpoint(), before);
}

#[test]
fn checkpoint_matches_recomputation() {
    let v = valset(vec![3_000_000_000]);
    let c = initialized(&v);
    assert_eq!(c.get_checkpoint(), Some(make_checkpoint(&v, &CHAIN)));
    assert!(c.initialized);
    assert_eq!(c.get_current_value(), 0);
}

#[test]
fn uninitialized_bridge_has_no_checkpoint() {
    let c = ClaimableBalanceContract::new(100);
    assert_eq!(c.get_checkpoint(), None);
}

#[test]
fn initialize_errors() {
    let mut c = ClaimableBalanceContract::new(100);
    assert_eq!(c.initialize(CHAIN, valset(vec![])).err(), Some(BridgeError::EmptyValidatorSet));
    let mut v = three_validators();
    v.powers.pop();
    assert_eq!(c.initialize(CHAIN, v).err(), Some(BridgeError::ValidatorPowerMismatch));
    let low = valset(vec![1_000_000_000, 1_000_000_000, 863_311_530]);
    assert_eq!(c.initialize(CHAIN, low).err(), Some(BridgeError::InsufficientQuorumPower));
    assert!(!c.initialized);
    let just_above = valset(vec![1_000_000_000, 1_000_000_000, 863_311_531]);
    assert!(c.initialize(CHAIN, just_above).is_ok());
}

#[test]
fn checkpoint_is_deterministic_and_field_sensitive() {
    let v = three_validators();
    let base = make_checkpoint(&v, &CHAIN);
    assert_eq!(base, make_checkpoint(&v.clone(), &CHAIN));
    let mut p = v.clone();
    p.powers[1] += 1;
    assert_ne!(base, make_checkpoint(&p, &CHAIN));
    let mut k = v.clone();
    k.validators[0][0] ^= 1;
    assert_ne!(base, make_checkpoint(&k, &CHAIN));
    let mut n = v.clone();
    n.valset_nonce = 1;
    assert_ne!(base, make_checkpoint(&n, &CHAIN));
    assert_ne!(base, make_checkpoint(&v, &[8u8; 32]));
}

#[test]
fn batch_hash_is_deterministic_and_field_sensitive() {
    let b = batch(1, 500);
    let base = hash_of(&b);
    assert_eq!(base, hash_of(&batch(1, 500)));
    assert_ne!(base, hash_of(&batch(2, 500)));
    assert_ne!(base, hash_of(&batch(1, 501)));
    let mut f = batch(1, 500);
    f.fees[0] = 2;
    assert_ne!(base, hash_of(&f));
    let mut a = batch(1, 500);
    a.amounts[1] = -20;
    assert_ne!(base, hash_of(&a));
}

#[test]
fn checkpoint_is_sha256_of_encoding() {
    let v = valset(vec![7]);
    let bytes = encode_valset(&v, &CHAIN);
    let expected: [u8; 32] = sha2::Sha256::digest(&bytes).into();
    assert_eq!(make_checkpoint(&v, &CHAIN), expected);
    assert_ne!(&make_checkpoint(&v, &CHAIN)[..], &bytes[..32]);
}

#[test]
fn valset_encoding_layout() {
    let v = ValsetArgs {
        validators: vec![[1u8; 32]],
        powers: vec![0x0102_0304],
        valset_nonce: 2,
        reward_amount: -1,
        reward_token: [4u8; 32],
    };
    let mut expected: Vec<u8> = vec![0, 0, 0, 0, 0, 0, 0, 1];
    expected.extend_from_slice(&[1u8; 32]);
    expected.extend_from_slice(&[0, 0, 0, 0, 0, 0, 0, 1, 1, 2, 3, 4]);
    expected.extend_from_slice(&[0, 0, 0, 0, 0, 0, 0, 2]);
    expected.extend_from_slice(&[0xff; 16]);
    expected.extend_from_slice(&[4u8; 32]);
    expected.extend_from_slice(&CHAIN);
    expected.extend_from_slice(b"valsetargs");
    assert_eq!(encode_valset(&v, &CHAIN), expected);
}

#[test]
fn batch_encoding_layout() {
    let bytes = encode_batch(&CHAIN, &vec![258], &vec![[2u8; 32]], &vec![1], 3, &TOKEN, 0x0a0b);
    let mut expected: Vec<u8> = b"transactionbatch".to_vec();
    expected.extend_from_slice(&CHAIN);
    expected.extend_from_slice(&[0, 0, 0, 0, 0, 0, 0, 1]);
    expected.extend_from_slice(&[0, 0, 0, 0, 0, 0, 0, 0, 0, 0, 0, 0, 0, 0, 1, 2]);
    expected.extend_from_slice(&[0, 0, 0, 0, 0, 0, 0, 1]);
    expected.extend_from_slice(&[2u8; 32]);
    expected.extend_from_slice(&[0, 0, 0, 0, 0, 0, 0, 1]);
    expected.extend_from_slice(&[0, 0, 0, 0, 0, 0, 0, 0, 0, 0, 0, 0, 0, 0, 0, 1]);
    expected.extend_from_slice(&[0, 0, 0, 3]);
    expected.extend_from_slice(&TOKEN);
    expected.extend_from_slice(&[0, 0, 0x0a, 0x0b]);
    assert_eq!(bytes, expected);
}

#[test]
fn signature_verification() {
    let key = signer(0);
    let msg = [42u8; 32];
    let sig = key.sign(&msg).to_bytes();
    let pk = key.verifying_key().to_bytes();
    assert!(verify_signature(&pk, &msg, &sig));
    assert!(!verify_signature(&pk, &[43u8; 32], &sig));
    assert!(!verify_signature(&signer(1).verifying_key().to_bytes(), &msg, &sig));
}

#[test]
fn one_bad_signature_fails_the_quorum() {
    let v = three_validators();
    let mut c = initialized(&v);
    let b = batch(1, 500);
    let mut sigs = sign(&v, &b, &[0, 1, 2]);
    sigs[1].signature[0] ^= 1;
    assert_eq!(submit(&mut c, &v, &sigs, &b, 0), Err(BridgeError::SignatureVerificationFailed));
    assert_eq!(c.batch_nonce, 0);
    let msg = hash_of(&b);
    assert_eq!(check_quorum(&v, &sigs, &msg), Err(BridgeError::SignatureVerificationFailed));
}

#[test]
fn quorum_power_is_strictly_above_threshold() {
    let v = valset(vec![2_863_311_530, 1]);
    let msg = [7u8; 32];
    let only_first = vec![
        SignatureEntry { present: true, signature: signer(0).sign(&msg).to_bytes() },
        SignatureEntry { present: false, signature: [0u8; 64] },
    ];
    assert_eq!(check_quorum(&v, &only_first, &msg), Err(BridgeError::InsufficientQuorumPower));
    let both = vec![
        only_first[0],
        SignatureEntry { present: true, signature: signer(1).sign(&msg).to_bytes() },
    ];
    assert_eq!(check_quorum(&v, &both, &msg), Ok(()));
}

#[test]
fn batch_nonce_window() {
    let v = three_validators();
    let mut c = initialized(&v);
    let b0 = batch(0, 500);
    assert_eq!(submit(&mut c, &v, &sign(&v, &b0, &[0, 1]), &b0, 0), Err(BridgeError::InvalidBatchNonce));
    let far = batch(1_000_001, 500);
    assert_eq!(submit(&mut c, &v, &sign(&v, &far, &[0, 1]), &far, 0), Err(BridgeError::InvalidBatchNonce));
    let edge = batch(1_000_000, 500);
    assert_eq!(submit(&mut c, &v, &sign(&v, &edge, &[0, 1]), &edge, 0), Ok(1_000_000));
    assert_eq!(c.batch_nonce, 1_000_000);
    assert_eq!(submit(&mut c, &v, &sign(&v, &edge, &[0, 1]), &edge, 0), Err(BridgeError::InvalidBatchNonce));
    let next = batch(1_000_001, 500);
    assert_eq!(submit(&mut c, &v, &sign(&v, &next, &[1, 2]), &next, 0), Ok(1_000_001));
}

#[test]
fn malformed_submissions() {
    let v = three_validators();
    let mut c = initialized(&v);
    let b = batch(1, 500);
    let sigs = sign(&v, &b, &[0, 1]);
    let short = vec![sigs[0], sigs[1]];
    assert_eq!(submit(&mut c, &v, &short, &b, 0), Err(BridgeError::MalformedValidatorSet));

    let other = valset(vec![1_500_000_000, 1_500_000_000, 1_500_000_001]);
    assert_eq!(submit(&mut c, &other, &sigs, &b, 0), Err(BridgeError::CheckpointMismatch));

    let mut bad = batch(1, 500);
    bad.fees.pop();
    assert_eq!(submit(&mut c, &v, &sigs, &bad, 0), Err(BridgeError::MalformedBatch));

    let mut fresh = ClaimableBalanceContract::new(100);
    assert_eq!(submit(&mut fresh, &v, &sigs, &b, 0), Err(BridgeError::CheckpointMismatch));
    assert_eq!(c.batch_nonce, 0);
}
