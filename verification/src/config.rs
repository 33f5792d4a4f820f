//! The part of the configuration that the order picker reads.

use vstd::prelude::*;

use crate::order::{is_listed, Address};

verus! {

/// In which order waiting orders are priced. The tag is the selecting code's to
/// interpret; here two modes are only told apart.
#[derive(Clone, Copy, Debug, PartialEq, Eq, Structural)]
pub struct OrderPricingPriority {
    pub tag: u8,
}

/// Market settings.
#[derive(Clone, Debug, PartialEq, Eq)]
pub struct MarketConfig {
    /// The least number of seconds that an order must have left, exclusive.
    pub min_deadline: u64,
    /// If given, the only clients whose orders are accepted.
    pub allow_client_addresses: Option<Vec<Address>>,
    /// If given, clients whose orders are refused.
    pub deny_requestor_addresses: Option<Vec<Address>>,
    /// If given, clients whose orders are not held to `max_mcycle_limit`.
    pub priority_requestor_addresses: Option<Vec<Address>>,
    /// The largest stake to lock an order with, as decimal text in ether units.
    pub max_stake: String,
    /// The least price per million cycles, as decimal text in ether.
    pub mcycle_price: String,
    /// The least price per million cycles, as decimal text in stake tokens.
    pub mcycle_price_stake_token: String,
    /// If given, the largest number of millions of cycles to take on.
    pub max_mcycle_limit: Option<u64>,
    /// If given, the rate at which cycles can be proven, in kHz.
    pub peak_prove_khz: Option<u64>,
    /// The largest journal to submit, in bytes.
    pub max_journal_bytes: usize,
    /// How many orders may be in pricing at once.
    pub max_concurrent_preflights: u32,
    pub order_pricing_priority: OrderPricingPriority,
}

/// `address` is listed, where there is a list at all.
pub open spec fn listed(addresses: Option<Vec<Address>>, address: Address) -> bool {
    addresses matches Some(list) && list@.contains(address)
}

impl MarketConfig {
    /// Orders of this client are accepted, as far as the allow list goes.
    pub open spec fn allows(self, client: Address) -> bool {
        self.allow_client_addresses is Some ==> listed(self.allow_client_addresses, client)
    }

    /// Orders of this client are refused.
    pub open spec fn denies(self, client: Address) -> bool {
        listed(self.deny_requestor_addresses, client)
    }

    /// The limit on millions of cycles that orders of this client are held to.
    pub open spec fn mcycle_limit_for(self, client: Address) -> Option<u64> {
        if listed(self.priority_requestor_addresses, client) {
            None
        } else {
            self.max_mcycle_limit
        }
    }

    /// Whether the allow list lets orders of this client through.
    pub fn is_allowed(&self, client: Address) -> (r: bool)
        ensures
            r == self.allows(client),
    {
        match &self.allow_client_addresses {
            Some(list) => is_listed(list, client),
            None => true,
        }
    }

    /// Whether the deny list refuses orders of this client.
    pub fn is_denied(&self, client: Address) -> (r: bool)
        ensures
            r == self.denies(client),
    {
        match &self.deny_requestor_addresses {
            Some(list) => is_listed(list, client),
            None => false,
        }
    }

    /// The limit on millions of cycles that orders of this client are held to:
    /// none for a priority requestor.
    pub fn client_mcycle_limit(&self, client: Address) -> (r: Option<u64>)
        ensures
            r == self.mcycle_limit_for(client),
    {
        match &self.priority_requestor_addresses {
            Some(list) => if is_listed(list, client) {
                None
            } else {
                self.max_mcycle_limit
            },
            None => self.max_mcycle_limit,
        }
    }
}

} // verus!
