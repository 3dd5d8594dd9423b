//! Signature verification and the power-weighted quorum check.
use crate::crypto::{ed25519_accepts, ed25519_verify};
use crate::encoding::ValsetArgs;
use crate::error::BridgeError;
use vstd::prelude::*;

verus! {

/// The fixed quorum threshold: accumulated power must strictly exceed it
/// (about two thirds of the 32-bit power range).
pub const MIN_POWER: u64 = 2_863_311_530;

/// A validator's signature slot, aligned by position with the validator list.
/// An absent entry carries no signature and contributes no power.
#[derive(Debug, Clone, Copy)]
pub struct SignatureEntry {
    pub present: bool,
    pub signature: [u8; 64],
}

/// The sum of all powers.
pub open spec fn total_power(powers: Seq<u32>) -> int
    decreases powers.len(),
{
    if powers.len() == 0 {
        0
    } else {
        total_power(powers.drop_last()) + powers.last()
    }
}

/// The sum of the powers whose signature entry is present.
pub open spec fn signed_power(powers: Seq<u32>, sigs: Seq<SignatureEntry>) -> int
    decreases powers.len(),
{
    if powers.len() == 0 {
        0
    } else {
        signed_power(powers.drop_last(), sigs) + if sigs[powers.len() - 1].present {
            powers.last() as int
        } else {
            0
        }
    }
}

/// Whether the present entry at `i` fails verification against validator `i`.
pub open spec fn rejected_at(
    validators: Seq<[u8; 32]>,
    sigs: Seq<SignatureEntry>,
    msg: Seq<u8>,
    i: int,
) -> bool {
    sigs[i].present && !ed25519_accepts(validators[i]@, msg, sigs[i].signature@)
}

/// Whether some present entry fails verification.
pub open spec fn any_rejected(
    validators: Seq<[u8; 32]>,
    sigs: Seq<SignatureEntry>,
    msg: Seq<u8>,
) -> bool {
    exists|i: int| 0 <= i < sigs.len() && #[trigger] rejected_at(validators, sigs, msg, i)
}

/// The outcome of the quorum check of `sigs` over `msg` for `valset`.
pub open spec fn quorum_result(valset: ValsetArgs, sigs: Seq<SignatureEntry>, msg: Seq<u8>) -> Result<
    (),
    BridgeError,
> {
    if any_rejected(valset.validators@, sigs, msg) {
        Err(BridgeError::SignatureVerificationFailed)
    } else if signed_power(valset.powers@, sigs) > MIN_POWER as int {
        Ok(())
    } else {
        Err(BridgeError::InsufficientQuorumPower)
    }
}

proof fn lemma_signed_power_bound(powers: Seq<u32>, sigs: Seq<SignatureEntry>)
    ensures
        0 <= signed_power(powers, sigs) <= powers.len() * 0xffff_ffff,
    decreases powers.len(),
{
    if powers.len() > 0 {
        lemma_signed_power_bound(powers.drop_last(), sigs);
    }
}

/// Checks an Ed25519 signature of `message_hash` under `validator_key`.
pub fn verify_signature(validator_key: &[u8; 32], message_hash: &[u8; 32], signature: &[u8; 64]) -> (r:
    bool)
    ensures
        r == ed25519_accepts(validator_key@, message_hash@, signature@),
{
    ed25519_verify(validator_key, message_hash, signature)
}

/// Verifies every present signature against its validator and requires the
/// verified power to strictly exceed `MIN_POWER`. One failed verification
/// fails the whole check; absent entries are skipped.
pub fn check_quorum(valset: &ValsetArgs, signatures: &Vec<SignatureEntry>, message_hash: &[u8; 32]) -> (r:
    Result<(), BridgeError>)
    requires
        valset.validators@.len() == valset.powers@.len(),
        valset.validators@.len() == signatures@.len(),
    ensures
        r == quorum_result(*valset, signatures@, message_hash@),
{
    let n = signatures.len();
    let mut power: u128 = 0;
    let mut i: usize = 0;
    while i < n
        invariant
            n == signatures@.len(),
            n == valset.validators@.len(),
            n == valset.powers@.len(),
            0 <= i <= n,
            power as int == signed_power(valset.powers@.subrange(0, i as int), signatures@),
            forall|j: int|
                0 <= j < i ==> !#[trigger] rejected_at(
                    valset.validators@,
                    signatures@,
                    message_hash@,
                    j,
                ),
        decreases n - i,
    {
        let entry = signatures[i];
        let ghost before = valset.powers@.subrange(0, i as int);
        let ghost after = valset.powers@.subrange(0, i + 1);
        assert(after.drop_last() =~= before);
        proof {
            lemma_signed_power_bound(before, signatures@);
        }
        if entry.present {
            if !verify_signature(&valset.validators[i], message_hash, &entry.signature) {
                assert(rejected_at(valset.validators@, signatures@, message_hash@, i as int));
                return Err(BridgeError::SignatureVerificationFailed);
            }
            power = power + valset.powers[i] as u128;
        }
        i += 1;
    }
    assert(valset.powers@.subrange(0, n as int) =~= valset.powers@);
    if power > MIN_POWER as u128 {
        Ok(())
    } else {
        Err(BridgeError::InsufficientQuorumPower)
    }
}

} // verus!
