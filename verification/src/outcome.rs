//! What pricing an order comes to.

use vstd::prelude::*;

verus! {

/// What to do with an order.
#[derive(Clone, Copy, Debug, PartialEq, Eq, Structural)]
#[non_exhaustive]
pub enum OrderPricingOutcome {
    /// Lock the order, and start proving once the lock is secured.
    Lock {
        total_cycles: u64,
        /// When to lock.
        target_timestamp_secs: u64,
        expiry_secs: u64,
    },
    /// Do not lock the order, but consider proving and fulfilling it after
    /// another prover's lock expires.
    ProveAfterLockExpire {
        total_cycles: u64,
        lock_expire_timestamp_secs: u64,
        expiry_secs: u64,
    },
    /// Do not take on the order.
    Skip,
}

/// Why an order is not taken on.
#[derive(Clone, Copy, Debug, PartialEq, Eq, Structural)]
pub enum SkipReason {
    /// The request is locked already.
    AlreadyLocked,
    /// The client is not on the allow list.
    NotAllowed,
    /// The client is on the deny list.
    Denied,
    /// The kind of proof that is asked for cannot be made.
    UnsupportedSelector,
    /// The order's deadline has passed.
    Expired,
    /// The order's deadline is too close.
    DeadlineTooClose,
    /// Locking the order takes more stake than is allowed.
    StakeTooHigh,
    /// Gas to lock and fulfill costs more than the order can pay.
    GasExceedsMaxPrice,
    /// There will not be enough gas.
    InsufficientGas,
    /// There is not enough stake to lock the order.
    InsufficientStake,
    /// Too few of the order's cycles may be run to prove it.
    ExecLimitTooLow,
    /// Running the order takes more cycles than may be run of it.
    SessionLimitExceeded,
    /// The journal is too large to submit.
    JournalTooLarge,
    /// The journal is not what the requestor asked for.
    PredicateFailed,
    /// The order pays too little for its cycles.
    Underpriced,
}

/// How large the execution of a request is.
#[derive(Clone, Copy, Debug, PartialEq, Eq, Structural)]
pub struct ExecutorResp {
    pub segments: u64,
    pub user_cycles: u64,
    pub total_cycles: u64,
    pub assumption_count: u64,
}

/// An execution of a request, real or estimated.
#[derive(Clone, Debug, PartialEq, Eq)]
pub struct ProofResult {
    pub id: String,
    pub stats: ExecutorResp,
}

} // verus!
