//! The bridge's persisted state and its operations: initialization of the
//! validator set, deposits, and the admission of outbound batches.
use crate::encoding::{batch_hash_of, checkpoint_of, make_batch_hash, make_checkpoint, ValsetArgs};
use crate::error::BridgeError;
use crate::ledger::{transfer_error, transferred, TokenLedger};
use crate::quorum::{check_quorum, quorum_result, total_power, SignatureEntry, MIN_POWER};
use vstd::prelude::*;

verus! {

/// How far past the stored batch nonce a new batch nonce may jump.
pub const MAX_NONCE_JUMP: u64 = 1_000_000;

/// The record published for an admitted deposit.
#[derive(Debug, Clone, Copy, PartialEq, Eq)]
pub struct ClaimableBalance {
    pub token: u64,
    pub amount: i128,
    pub sender: u64,
    pub destination: [u8; 32],
    pub last_event_nonce: u32,
}

/// The record published when a validator set becomes active.
#[derive(Debug, Clone)]
pub struct ValsetUpdate {
    pub checkpoint: [u8; 32],
    pub event_nonce: u32,
    pub reward_amount: i128,
    pub reward_token: [u8; 32],
    pub validators: Vec<[u8; 32]>,
    pub powers: Vec<u32>,
}

/// The bridge's persisted state. `address` is the bridge's own account in
/// token ledgers, where deposited funds are held.
#[derive(Debug, Clone, Copy)]
pub struct ClaimableBalanceContract {
    pub address: u64,
    pub initialized: bool,
    pub chain_id: [u8; 32],
    pub checkpoint: [u8; 32],
    pub event_nonce: u32,
    pub batch_nonce: u32,
}

/// Why `initialize` refuses `valset` in state `s`, if it does.
pub open spec fn initialize_error(s: ClaimableBalanceContract, valset: ValsetArgs) -> Option<
    BridgeError,
> {
    if s.initialized {
        Some(BridgeError::AlreadyInitialized)
    } else if valset.validators@.len() == 0 {
        Some(BridgeError::EmptyValidatorSet)
    } else if valset.validators@.len() != valset.powers@.len() {
        Some(BridgeError::ValidatorPowerMismatch)
    } else if total_power(valset.powers@) <= MIN_POWER as int {
        Some(BridgeError::InsufficientQuorumPower)
    } else {
        None
    }
}

/// Why a deposit is refused, if it is: the sender's authorization first,
/// then the token ledger's verdict on the transfer into custody.
pub open spec fn deposit_error(
    s: ClaimableBalanceContract,
    balances: Map<u64, i128>,
    from: u64,
    from_authorized: bool,
    amount: i128,
) -> Option<BridgeError> {
    if !from_authorized {
        Some(BridgeError::Unauthorized)
    } else {
        transfer_error(balances, from, s.address, amount)
    }
}

/// The outcome of submitting a batch in state `s`, checked in order.
pub open spec fn batch_result(
    s: ClaimableBalanceContract,
    valset: ValsetArgs,
    sigs: Seq<SignatureEntry>,
    amounts: Seq<i128>,
    destinations: Seq<[u8; 32]>,
    fees: Seq<i128>,
    batch_nonce: u32,
    token_contract: Seq<u8>,
    batch_timeout: u32,
    current_sequence: u32,
) -> Result<u32, BridgeError> {
    if batch_nonce <= s.batch_nonce {
        Err(BridgeError::InvalidBatchNonce)
    } else if batch_nonce > s.batch_nonce + MAX_NONCE_JUMP {
        Err(BridgeError::InvalidBatchNonce)
    } else if current_sequence >= batch_timeout {
        Err(BridgeError::BatchTimedOut)
    } else if valset.validators@.len() != valset.powers@.len() || valset.validators@.len()
        != sigs.len() {
        Err(BridgeError::MalformedValidatorSet)
    } else if !s.initialized || checkpoint_of(valset, s.chain_id@) != s.checkpoint@ {
        Err(BridgeError::CheckpointMismatch)
    } else if amounts.len() != destinations.len() || amounts.len() != fees.len() {
        Err(BridgeError::MalformedBatch)
    } else {
        match quorum_result(
            valset,
            sigs,
            batch_hash_of(
                s.chain_id@,
                amounts,
                destinations,
                fees,
                batch_nonce,
                token_contract,
                batch_timeout,
            ),
        ) {
            Ok(_) => Ok(batch_nonce),
            Err(e) => Err(e),
        }
    }
}

/// `t` is the state that a successful `initialize(chain_id, valset)` leaves
/// behind when called in state `s`.
pub open spec fn initialized_from(
    s: ClaimableBalanceContract,
    t: ClaimableBalanceContract,
    chain_id: [u8; 32],
    valset: ValsetArgs,
) -> bool {
    &&& t.initialized
    &&& t.chain_id == chain_id
    &&& t.checkpoint@ == checkpoint_of(valset, chain_id@)
    &&& t.event_nonce == 0
    &&& t.batch_nonce == s.batch_nonce
    &&& t.address == s.address
}

/// The active checkpoint of state `s`, if it has one.
pub open spec fn active_checkpoint(s: ClaimableBalanceContract) -> Option<Seq<u8>> {
    if s.initialized {
        Some(s.checkpoint@)
    } else {
        None
    }
}

proof fn lemma_total_power_bound(powers: Seq<u32>)
    ensures
        0 <= total_power(powers) <= powers.len() * 0xffff_ffff,
    decreases powers.len(),
{
    if powers.len() > 0 {
        lemma_total_power_bound(powers.drop_last());
    }
}

fn sum_powers(powers: &Vec<u32>) -> (r: u128)
    ensures
        r as int == total_power(powers@),
{
    let mut sum: u128 = 0;
    let mut i: usize = 0;
    while i < powers.len()
        invariant
            0 <= i <= powers@.len(),
            sum as int == total_power(powers@.subrange(0, i as int)),
        decreases powers@.len() - i,
    {
        assert(powers@.subrange(0, i + 1).drop_last() =~= powers@.subrange(0, i as int));
        proof {
            lemma_total_power_bound(powers@.subrange(0, i as int));
        }
        sum = sum + powers[i] as u128;
        i += 1;
    }
    assert(powers@.subrange(0, powers@.len() as int) =~= powers@);
    sum
}

fn same_bytes(a: &[u8; 32], b: &[u8; 32]) -> (r: bool)
    ensures
        r == (a@ == b@),
{
    let mut i: usize = 0;
    while i < 32
        invariant
            0 <= i <= 32,
            a@.len() == 32,
            b@.len() == 32,
            forall|j: int| 0 <= j < i ==> a@[j] == b@[j],
        decreases 32 - i,
    {
        if a[i] != b[i] {
            return false;
        }
        i += 1;
    }
    assert(a@ =~= b@);
    true
}

impl ClaimableBalanceContract {
    /// A bridge that holds deposits under the account `address`, not yet
    /// initialized, with both nonces at zero.
    pub fn new(address: u64) -> (r: Self)
        ensures
            r.address == address,
            !r.initialized,
            r.event_nonce == 0,
            r.batch_nonce == 0,
    {
        ClaimableBalanceContract {
            address,
            initialized: false,
            chain_id: [0u8; 32],
            checkpoint: [0u8; 32],
            event_nonce: 0,
            batch_nonce: 0,
        }
    }

    /// Activates the first validator set, once. On success stores the chain
    /// id and the set's checkpoint, marks the bridge initialized, resets the
    /// event nonce, and returns the record to publish.
    pub fn initialize(&mut self, chain_id: [u8; 32], valset: ValsetArgs) -> (r: Result<
        ValsetUpdate,
        BridgeError,
    >)
        ensures
            match initialize_error(*old(self), valset) {
                Some(e) => r == Err::<ValsetUpdate, BridgeError>(e) && *final(self) == *old(self),
                None => r is Ok && initialized_from(*old(self), *final(self), chain_id, valset),
            },
            r matches Ok(u) ==> u.checkpoint == final(self).checkpoint && u.event_nonce == 0
                && u.reward_amount == valset.reward_amount && u.reward_token == valset.reward_token
                && u.validators@ == valset.validators@ && u.powers@ == valset.powers@,
    {
        if self.initialized {
            return Err(BridgeError::AlreadyInitialized);
        }
        if valset.validators.len() == 0 {
            return Err(BridgeError::EmptyValidatorSet);
        }
        if valset.validators.len() != valset.powers.len() {
            return Err(BridgeError::ValidatorPowerMismatch);
        }
        if sum_powers(&valset.powers) <= MIN_POWER as u128 {
            return Err(BridgeError::InsufficientQuorumPower);
        }
        let checkpoint = make_checkpoint(&valset, &chain_id);
        self.chain_id = chain_id;
        self.checkpoint = checkpoint;
        self.initialized = true;
        self.event_nonce = 0;
        Ok(
            ValsetUpdate {
                checkpoint,
                event_nonce: 0,
                reward_amount: valset.reward_amount,
                reward_token: valset.reward_token,
                validators: valset.validators,
                powers: valset.powers,
            },
        )
    }

    /// The active checkpoint, once the bridge is initialized.
    pub fn get_checkpoint(&self) -> (r: Option<[u8; 32]>)
        ensures
            match r {
                Some(c) => active_checkpoint(*self) == Some(c@),
                None => active_checkpoint(*self) == None::<Seq<u8>>,
            },
    {
        if self.initialized {
            Some(self.checkpoint)
        } else {
            None
        }
    }

    /// The event nonce: the number of deposits admitted so far.
    pub fn get_current_value(&self) -> (r: u32)
        ensures
            r == self.event_nonce,
    {
        self.event_nonce
    }

    /// Admits a deposit of `amount` from `from` to `destination` on the other
    /// chain. `from_authorized` is the host's verdict on the sender's
    /// authorization. The amount moves from `from` to the bridge's account in
    /// `ledger`; then the event nonce advances by one and the record to publish
    /// is returned. A refused deposit changes neither the state nor the ledger.
    pub fn deposit(
        &mut self,
        ledger: &mut TokenLedger,
        from: u64,
        from_authorized: bool,
        amount: i128,
        destination: [u8; 32],
    ) -> (r: Result<ClaimableBalance, BridgeError>)
        requires
            old(self).event_nonce < u32::MAX,
        ensures
            final(ledger).token_id() == old(ledger).token_id(),
            match deposit_error(*old(self), old(ledger)@, from, from_authorized, amount) {
                Some(e) => r == Err::<ClaimableBalance, BridgeError>(e) && *final(self) == *old(
                    self,
                ) && final(ledger)@ == old(ledger)@,
                None => r == Ok::<ClaimableBalance, BridgeError>(
                    (ClaimableBalance {
                        token: old(ledger).token_id(),
                        amount,
                        sender: from,
                        destination,
                        last_event_nonce: (old(self).event_nonce + 1) as u32,
                    }),
                ) && *final(self) == (ClaimableBalanceContract {
                    event_nonce: (old(self).event_nonce + 1) as u32,
                    ..*old(self)
                }) && final(ledger)@ == transferred(old(ledger)@, from, old(self).address, amount),
            },
    {
        if !from_authorized {
            return Err(BridgeError::Unauthorized);
        }
        match ledger.transfer(from, self.address, amount) {
            Err(e) => Err(e),
            Ok(()) => {
                self.event_nonce = self.event_nonce + 1;
                Ok(
                    ClaimableBalance {
                        token: ledger.token(),
                        amount,
                        sender: from,
                        destination,
                        last_event_nonce: self.event_nonce,
                    },
                )
            },
        }
    }

    /// Admits an outbound batch signed by the active validator set, checking
    /// in order: the nonce window, the timeout against `current_sequence`, the
    /// shape of the validator set, its checkpoint, the shape of the batch, and
    /// the quorum over the batch hash. On success stores `batch_nonce` and
    /// returns it; on failure changes nothing.
    pub fn submit_batch(
        &mut self,
        current_valset: &ValsetArgs,
        signatures: &Vec<SignatureEntry>,
        amounts: &Vec<i128>,
        destinations: &Vec<[u8; 32]>,
        fees: &Vec<i128>,
        batch_nonce: u32,
        token_contract: &[u8; 32],
        batch_timeout: u32,
        current_sequence: u32,
    ) -> (r: Result<u32, BridgeError>)
        ensures
            r == batch_result(
                *old(self),
                *current_valset,
                signatures@,
                amounts@,
                destinations@,
                fees@,
                batch_nonce,
                token_contract@,
                batch_timeout,
                current_sequence,
            ),
            r is Ok ==> *final(self) == (ClaimableBalanceContract { batch_nonce, ..*old(self) }),
            r is Err ==> *final(self) == *old(self),
    {
        if batch_nonce <= self.batch_nonce {
            return Err(BridgeError::InvalidBatchNonce);
        }
        if batch_nonce as u64 > self.batch_nonce as u64 + MAX_NONCE_JUMP {
            return Err(BridgeError::InvalidBatchNonce);
        }
        if current_sequence >= batch_timeout {
            return Err(BridgeError::BatchTimedOut);
        }
        let n = current_valset.validators.len();
        if n != current_valset.powers.len() || n != signatures.len() {
            return Err(BridgeError::MalformedValidatorSet);
        }
        if !self.initialized {
            return Err(BridgeError::CheckpointMismatch);
        }
        let checkpoint = make_checkpoint(current_valset, &self.chain_id);
        if !same_bytes(&checkpoint, &self.checkpoint) {
            return Err(BridgeError::CheckpointMismatch);
        }
        if amounts.len() != destinations.len() || amounts.len() != fees.len() {
            return Err(BridgeError::MalformedBatch);
        }
        let message_hash = make_batch_hash(
            &self.chain_id,
            amounts,
            destinations,
            fees,
            batch_nonce,
            token_contract,
            batch_timeout,
        );
        match check_quorum(current_valset, signatures, &message_hash) {
            Err(e) => Err(e),
            Ok(()) => {
                self.batch_nonce = batch_nonce;
                Ok(batch_nonce)
            },
        }
    }
}

} // verus!
