//! Orders, as far as pricing reads them.

use vstd::prelude::*;

use crate::u256::U256;

verus! {

/// An account's address: its twenty bytes as three big-endian words.
#[derive(Clone, Copy, Debug, PartialEq, Eq, Structural)]
pub struct Address {
    /// The first eight bytes.
    pub head: u64,
    /// The next eight bytes.
    pub middle: u64,
    /// The last four bytes.
    pub tail: u32,
}

/// How an order is to be fulfilled.
#[derive(Clone, Copy, Debug, PartialEq, Eq, Structural)]
pub enum FulfillmentType {
    /// Lock the request, then prove and fulfill it before the lock expires.
    LockAndFulfill,
    /// Another prover holds the lock: fulfill once that lock has expired, for a
    /// part of the stake that the other prover loses.
    FulfillAfterLockExpire,
}

/// What a requestor offers for a proof.
#[derive(Clone, Copy, Debug, PartialEq, Eq)]
pub struct Offer {
    pub min_price: U256,
    pub max_price: U256,
    /// When bidding starts, in seconds.
    pub bidding_start: u64,
    pub ramp_up_period: u32,
    /// Seconds from the start of bidding until a lock expires.
    pub lock_timeout: u32,
    /// Seconds from the start of bidding until the request expires.
    pub timeout: u32,
    /// The stake that locking the request takes.
    pub lock_stake: U256,
    /// The part of the stake that goes to whoever fulfills the request after
    /// its lock has expired. The market's rules set it.
    pub stake_reward: U256,
}

impl Offer {
    /// The time before which a locked request must be fulfilled to avoid slashing.
    pub open spec fn lock_expiration(self) -> int {
        self.bidding_start + self.lock_timeout
    }

    /// The time after which nobody can fulfill the request.
    pub open spec fn order_expiration(self) -> int {
        self.bidding_start + self.timeout
    }

    /// Both deadlines fit in 64 bits.
    pub open spec fn deadlines_fit(self) -> bool {
        &&& self.lock_expiration() <= u64::MAX
        &&& self.order_expiration() <= u64::MAX
    }

    /// Whether both deadlines fit in 64 bits.
    pub fn check_deadlines_fit(&self) -> (r: bool)
        ensures
            r == self.deadlines_fit(),
    {
        self.lock_timeout as u64 <= u64::MAX - self.bidding_start && self.timeout as u64 <= u64::MAX
            - self.bidding_start
    }
}

/// A request for a proof.
#[derive(Clone, Copy, Debug, PartialEq, Eq)]
pub struct ProofRequest {
    pub id: U256,
    /// The requestor. The market's rules take it out of the id.
    pub client_address: Address,
    /// Whether the kind of proof that the request requires can be made.
    pub selector_supported: bool,
    pub offer: Offer,
}

/// A request together with how it is to be fulfilled, and what has been found
/// out about it so far.
#[derive(Clone, Debug, PartialEq, Eq)]
pub struct OrderRequest {
    /// What tells this order from every other.
    pub id: String,
    pub request: ProofRequest,
    pub fulfillment_type: FulfillmentType,
    /// Where the prover keeps the request's image and input, once uploaded.
    pub image_id: Option<String>,
    pub input_id: Option<String>,
    /// What pricing found, once the order is priced.
    pub total_cycles: Option<u64>,
    pub target_timestamp: Option<u64>,
    pub expire_timestamp: Option<u64>,
}

impl OrderRequest {
    /// Another prover's lock stands between this order and its fulfillment.
    pub open spec fn lock_expired(self) -> bool {
        self.fulfillment_type == FulfillmentType::FulfillAfterLockExpire
    }

    /// The deadline of this order: of its lock where it is to be locked, of
    /// the request otherwise.
    pub open spec fn expiration(self) -> int {
        if self.lock_expired() {
            self.request.offer.order_expiration()
        } else {
            self.request.offer.lock_expiration()
        }
    }

    /// Whether another prover's lock stands between this order and its
    /// fulfillment.
    pub fn is_lock_expired(&self) -> (r: bool)
        ensures
            r == self.lock_expired(),
    {
        self.fulfillment_type == FulfillmentType::FulfillAfterLockExpire
    }
}

/// What running a request's program printed, and whether that is what the
/// requestor asked for.
#[derive(Clone, Debug, PartialEq, Eq)]
pub struct Journal {
    pub bytes: Vec<u8>,
    pub predicate_holds: bool,
}

/// Whether `address` is listed.
pub fn is_listed(addresses: &Vec<Address>, address: Address) -> (r: bool)
    ensures
        r == addresses@.contains(address),
{
    let mut i: usize = 0;
    while i < addresses.len()
        invariant
            i <= addresses@.len(),
            forall|k: int| 0 <= k < i ==> addresses@[k] != address,
        decreases addresses@.len() - i,
    {
        if addresses[i] == address {
            return true;
        }
        i = i + 1;
    }
    false
}

} // verus!
