use vstd::prelude::*;

verus! {

/// Every way in which a bridge operation can fail. Each failure aborts the
/// operation as a whole: no state is changed by a call that returns one.
#[derive(Debug, Clone, Copy, PartialEq, Eq, Structural)]
pub enum BridgeError {
    AlreadyInitialized,
    EmptyValidatorSet,
    ValidatorPowerMismatch,
    InsufficientQuorumPower,
    InvalidBatchNonce,
    BatchTimedOut,
    MalformedValidatorSet,
    CheckpointMismatch,
    MalformedBatch,
    SignatureVerificationFailed,
    InsufficientFunds,
    Unauthorized,
    /// The token ledger refuses to move a negative amount.
    InvalidAmount,
    /// The token ledger refuses a credit that would overflow a balance.
    BalanceOverflow,
}

} // verus!
