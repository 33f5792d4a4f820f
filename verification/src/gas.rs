//! Gas: what an order takes, what earlier orders have reserved, and what is left.

use vstd::prelude::*;

use crate::picker::OrderPicker;
use crate::u256::{sat_sub, u256_max, U256};

verus! {

/// The sum of some gas estimates.
pub open spec fn total_gas(estimates: Seq<u64>) -> nat
    decreases estimates.len(),
{
    if estimates.len() == 0 {
        0
    } else {
        total_gas(estimates.drop_last()) + estimates.last() as nat
    }
}

/// An amount of gas at a price.
#[derive(Clone, Copy, Debug, PartialEq, Eq, Structural)]
pub struct GasBill {
    /// Wei per unit of gas.
    pub price: u128,
    /// Units of gas.
    pub gas: u64,
}

impl GasBill {
    /// What the gas costs, in wei.
    pub open spec fn amount(self) -> nat {
        (self.price * self.gas) as nat
    }

    /// What the gas costs, in wei.
    pub fn cost(&self) -> (r: U256)
        ensures
            r@ == self.amount(),
    {
        proof {
            let price = self.price;
            let gas = self.gas;
            assert(0 <= price * gas <= u128::MAX * u64::MAX) by (nonlinear_arith)
                requires
                    0 <= price <= u128::MAX,
                    0 <= gas <= u64::MAX,
            ;
            assert(u128::MAX * u64::MAX < u256_max());
            assert((self.amount() % (u256_max() + 1)) == self.amount()) by {
                vstd::arithmetic::div_mod::lemma_small_mod(self.amount(), u256_max() + 1);
            }
        }
        U256::from_u128(self.price).wrapping_mul(U256::from_u64(self.gas))
    }
}

/// Earlier estimates are part of the sum of all.
proof fn lemma_total_gas_of_part(estimates: Seq<u64>, n: int)
    requires
        0 <= n <= estimates.len(),
    ensures
        total_gas(estimates.take(n)) <= total_gas(estimates),
    decreases estimates.len() - n,
{
    if n < estimates.len() {
        lemma_total_gas_of_part(estimates, n + 1);
        assert(estimates.take(n + 1).drop_last() =~= estimates.take(n));
    } else {
        assert(estimates.take(n) =~= estimates);
    }
}

/// The sum of some gas estimates, if it fits in 64 bits.
pub fn checked_total_gas(estimates: &Vec<u64>) -> (r: Option<u64>)
    ensures
        r == (if total_gas(estimates@) <= u64::MAX {
            Some(total_gas(estimates@) as u64)
        } else {
            None
        }),
{
    let mut gas: u64 = 0;
    let mut i: usize = 0;
    assert(estimates@.take(0) =~= Seq::empty());
    while i < estimates.len()
        invariant
            i <= estimates@.len(),
            gas == total_gas(estimates@.take(i as int)),
        decreases estimates@.len() - i,
    {
        proof {
            lemma_total_gas_of_part(estimates@, i + 1);
            assert(estimates@.take(i + 1).drop_last() =~= estimates@.take(i as int));
        }
        match gas.checked_add(estimates[i]) {
            Some(sum) => {
                gas = sum;
            },
            None => {
                return None;
            },
        }
        i = i + 1;
    }
    assert(estimates@.take(i as int) =~= estimates@);
    Some(gas)
}

/// Whether what locking and what fulfilling the pending orders takes fits in 64
/// bits together.
pub fn pending_gas_fits(lock_estimates: &Vec<u64>, fulfill_estimates: &Vec<u64>) -> (r: bool)
    ensures
        r == (total_gas(lock_estimates@) + total_gas(fulfill_estimates@) <= u64::MAX),
{
    match (checked_total_gas(lock_estimates), checked_total_gas(fulfill_estimates)) {
        (Some(lock_gas), Some(fulfill_gas)) => fulfill_gas <= u64::MAX - lock_gas,
        _ => false,
    }
}

impl OrderPicker {
    /// The gas that locking all orders takes that are pending lock, given the
    /// estimate of each.
    pub fn estimate_gas_to_lock_pending(&self, estimates: &Vec<u64>) -> (r: u64)
        requires
            total_gas(estimates@) <= u64::MAX,
        ensures
            r == total_gas(estimates@),
    {
        checked_total_gas(estimates).unwrap()
    }

    /// The gas that fulfilling all orders takes that are pending lock or
    /// locked, given the estimate of each.
    pub fn estimate_gas_to_fulfill_pending(&self, estimates: &Vec<u64>) -> (r: u64)
        requires
            total_gas(estimates@) <= u64::MAX,
        ensures
            r == total_gas(estimates@),
    {
        checked_total_gas(estimates).unwrap()
    }

    /// The gas tokens that are reserved to lock and fulfill all pending orders,
    /// at a gas price.
    pub fn gas_balance_reserved(
        &self,
        gas_price: u128,
        lock_pending_gas: u64,
        fulfill_pending_gas: u64,
    ) -> (r: U256)
        requires
            lock_pending_gas + fulfill_pending_gas <= u64::MAX,
        ensures
            r@ == gas_price * (lock_pending_gas + fulfill_pending_gas),
    {
        let bill = GasBill { price: gas_price, gas: lock_pending_gas + fulfill_pending_gas };
        bill.cost()
    }

    /// The gas tokens that are there: the balance of the account. What pending
    /// orders will take of them, [`Self::gas_balance_reserved`] says.
    pub fn available_gas_balance(&self, balance: U256) -> (r: U256)
        ensures
            r@ == balance@,
    {
        balance
    }

    /// The stake tokens that are there to be staked: the account's balance, less
    /// the stake of orders that are yet to be locked.
    pub fn available_stake_balance(&self, balance: U256, pending_stake: U256) -> (r: U256)
        ensures
            r@ == sat_sub(balance@, pending_stake@),
    {
        balance.saturating_sub(pending_stake)
    }
}

} // verus!
