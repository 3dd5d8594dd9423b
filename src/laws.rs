//! Properties that relate the bridge's operations, stated over the spec
//! functions that their contracts use.
use crate::bridge::{
    active_checkpoint, batch_result, deposit_error, initialize_error, initialized_from,
    ClaimableBalanceContract, MAX_NONCE_JUMP,
};
use crate::encoding::{checkpoint_of, ValsetArgs};
use crate::error::BridgeError;
use crate::ledger::{balance_in, transferred};
use crate::quorum::{any_rejected, quorum_result, signed_power, total_power, SignatureEntry, MIN_POWER};
use vstd::prelude::*;

verus! {

/// Once initialized, the bridge refuses every further `initialize` with
/// `AlreadyInitialized`, whatever the validator set.
pub proof fn law_initialize_only_once(s: ClaimableBalanceContract, valset: ValsetArgs)
    requires
        s.initialized,
    ensures
        initialize_error(s, valset) == Some(BridgeError::AlreadyInitialized),
{
}

/// On an uninitialized bridge, a validator set with as many powers as
/// validators, at least one validator and total power above `MIN_POWER` is
/// accepted, and the state it leaves behind reports as active checkpoint
/// exactly the checkpoint recomputed from the same set and chain id.
pub proof fn law_initialize_activates_checkpoint(
    s: ClaimableBalanceContract,
    t: ClaimableBalanceContract,
    chain_id: [u8; 32],
    valset: ValsetArgs,
)
    requires
        !s.initialized,
        valset.validators@.len() > 0,
        valset.validators@.len() == valset.powers@.len(),
        total_power(valset.powers@) > MIN_POWER as int,
    ensures
        initialize_error(s, valset) == None::<BridgeError>,
        initialized_from(s, t, chain_id, valset) ==> active_checkpoint(t) == Some(
            checkpoint_of(valset, chain_id@),
        ),
{
}

/// The checkpoint depends on the contents of the validator set and the chain
/// id alone: two sets with the same contents have the same checkpoint.
pub proof fn law_checkpoint_deterministic(a: ValsetArgs, b: ValsetArgs, chain_id: Seq<u8>)
    requires
        a.validators@ == b.validators@,
        a.powers@ == b.powers@,
        a.valset_nonce == b.valset_nonce,
        a.reward_amount == b.reward_amount,
        a.reward_token == b.reward_token,
    ensures
        checkpoint_of(a, chain_id) == checkpoint_of(b, chain_id),
{
}

/// An authorized deposit of an amount between zero and the sender's balance
/// (the sender not being the bridge's own account, whose balance must have
/// room for it) is admitted, takes `amount` from the sender and adds it to
/// the bridge's account.
pub proof fn law_deposit_moves_amount(
    s: ClaimableBalanceContract,
    balances: Map<u64, i128>,
    from: u64,
    amount: i128,
)
    requires
        0 <= amount <= balance_in(balances, from),
        from != s.address,
        balance_in(balances, s.address) + amount <= i128::MAX,
    ensures
        deposit_error(s, balances, from, true, amount) == None::<BridgeError>,
        balance_in(transferred(balances, from, s.address, amount), from) == balance_in(
            balances,
            from,
        ) - amount,
        balance_in(transferred(balances, from, s.address, amount), s.address) == balance_in(
            balances,
            s.address,
        ) + amount,
{
}

/// An authorized deposit of more than the sender holds fails with
/// `InsufficientFunds` (and so leaves the event nonce as it was).
pub proof fn law_deposit_beyond_balance(
    s: ClaimableBalanceContract,
    balances: Map<u64, i128>,
    from: u64,
    amount: i128,
)
    requires
        amount > balance_in(balances, from),
        amount >= 0,
    ensures
        deposit_error(s, balances, from, true, amount) == Some(BridgeError::InsufficientFunds),
{
}

/// A batch whose nonce is not above the stored one, or more than
/// `MAX_NONCE_JUMP` above it, fails with `InvalidBatchNonce`.
pub proof fn law_batch_nonce_window(
    s: ClaimableBalanceContract,
    valset: ValsetArgs,
    sigs: Seq<SignatureEntry>,
    amounts: Seq<i128>,
    destinations: Seq<[u8; 32]>,
    fees: Seq<i128>,
    batch_nonce: u32,
    token_contract: Seq<u8>,
    batch_timeout: u32,
    current_sequence: u32,
)
    requires
        batch_nonce <= s.batch_nonce || batch_nonce > s.batch_nonce + MAX_NONCE_JUMP,
    ensures
        batch_result(
            s,
            valset,
            sigs,
            amounts,
            destinations,
            fees,
            batch_nonce,
            token_contract,
            batch_timeout,
            current_sequence,
        ) == Err::<u32, BridgeError>(BridgeError::InvalidBatchNonce),
{
}

/// An admitted batch returns exactly its own nonce, which `submit_batch` then
/// stores.
pub proof fn law_batch_admits_its_nonce(
    s: ClaimableBalanceContract,
    valset: ValsetArgs,
    sigs: Seq<SignatureEntry>,
    amounts: Seq<i128>,
    destinations: Seq<[u8; 32]>,
    fees: Seq<i128>,
    batch_nonce: u32,
    token_contract: Seq<u8>,
    batch_timeout: u32,
    current_sequence: u32,
)
    requires
        batch_result(
            s,
            valset,
            sigs,
            amounts,
            destinations,
            fees,
            batch_nonce,
            token_contract,
            batch_timeout,
            current_sequence,
        ) is Ok,
    ensures
        batch_result(
            s,
            valset,
            sigs,
            amounts,
            destinations,
            fees,
            batch_nonce,
            token_contract,
            batch_timeout,
            current_sequence,
        ) == Ok::<u32, BridgeError>(batch_nonce),
        s.batch_nonce < batch_nonce <= s.batch_nonce + MAX_NONCE_JUMP,
{
}

/// When every present signature verifies but their combined power does not
/// exceed `MIN_POWER`, the quorum check fails with `InsufficientQuorumPower`.
pub proof fn law_quorum_needs_power(valset: ValsetArgs, sigs: Seq<SignatureEntry>, msg: Seq<u8>)
    requires
        !any_rejected(valset.validators@, sigs, msg),
        signed_power(valset.powers@, sigs) <= MIN_POWER as int,
    ensures
        quorum_result(valset, sigs, msg) == Err::<(), BridgeError>(
            BridgeError::InsufficientQuorumPower,
        ),
{
}

/// A single present signature that fails verification fails the whole quorum
/// check with `SignatureVerificationFailed`, whatever the power of the others.
pub proof fn law_quorum_rejects_bad_signature(
    valset: ValsetArgs,
    sigs: Seq<SignatureEntry>,
    msg: Seq<u8>,
    i: int,
)
    requires
        0 <= i < sigs.len(),
        sigs[i].present,
        !crate::crypto::ed25519_accepts(valset.validators@[i]@, msg, sigs[i].signature@),
    ensures
        quorum_result(valset, sigs, msg) == Err::<(), BridgeError>(
            BridgeError::SignatureVerificationFailed,
        ),
{
    assert(crate::quorum::rejected_at(valset.validators@, sigs, msg, i));
}

} // verus!
