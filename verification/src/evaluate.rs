//! How many cycles an order is taken to need, and whether it pays for them.

use vstd::prelude::*;

use crate::config::MarketConfig;
use crate::error::{result_view, ErrContext, OrderPickerErr, OrderPickerErrView};
use crate::order::OrderRequest;
use crate::outcome::{ExecutorResp, OrderPricingOutcome, ProofResult};
use crate::picker::{calculate_max_cycles_for_time, max_cycles_for_time, OrderPicker};
use crate::u256::{sat_mul, sat_sub, U256};
use crate::units::{
    parse_ether, parse_units, parsed_ether, parsed_units, readable, ETHER_DECIMALS,
};

verus! {

/// Prices are given per this many cycles.
pub const ONE_MILLION: u64 = 1_000_000;

/// The cycles that an order is taken to need once its lock has expired. The
/// reward of such orders is low, so the estimate is, too.
pub const LOCK_EXPIRED_CYCLES: u64 = 50_000_000;

/// The cycles that an order to be locked is taken to need at least.
pub const MIN_LOCKABLE_CYCLES: u64 = 100_000_000;

/// The cycles that an order to be locked is taken to need where its price does
/// not bound them.
pub const FALLBACK_CYCLES: u64 = 4_000_000_000;

/// The fewest cycles to run of an order ahead of proving it: a run of fewer
/// cannot be proven.
pub const MIN_RUN_CYCLES: u64 = 2;

/// The number of cycles in a segment, roughly.
pub const CYCLES_PER_SEGMENT: u64 = 100_000;

/// What `amount` comes to per million cycles, over `cycles` cycles.
pub open spec fn per_mcycle(amount: nat, cycles: nat) -> nat {
    sat_mul(amount, ONE_MILLION as nat) / cycles
}

/// The cycles that `max_price` pays for at `mcycle_price` per million, once gas
/// is paid; [`FALLBACK_CYCLES`] where that is no bound: the price is zero,
/// nothing is left, or the number has no place in 64 bits.
pub open spec fn affordable_cycles(max_price: nat, gas_cost: nat, mcycle_price: nat) -> nat {
    let cycles = sat_mul(sat_sub(max_price, gas_cost), ONE_MILLION as nat) / mcycle_price;
    if mcycle_price > 0 && gas_cost < max_price && cycles <= u64::MAX {
        cycles
    } else {
        FALLBACK_CYCLES as nat
    }
}

/// The cycles that an order to be locked is taken to need: what it can afford,
/// within the limit on millions of cycles, but at least [`MIN_LOCKABLE_CYCLES`].
pub open spec fn lockable_cycles(affordable: nat, mcycle_limit: Option<u64>) -> nat {
    let within_limit = match mcycle_limit {
        Some(limit) => if limit * ONE_MILLION < affordable {
            (limit * ONE_MILLION) as nat
        } else {
            affordable
        },
        None => affordable,
    };
    if within_limit < MIN_LOCKABLE_CYCLES {
        MIN_LOCKABLE_CYCLES as nat
    } else {
        within_limit
    }
}

/// A limit on millions of cycles can be counted in cycles.
pub open spec fn limit_fits(mcycle_limit: Option<u64>) -> bool {
    mcycle_limit matches Some(limit) ==> limit * ONE_MILLION <= u64::MAX
}

/// The order pays at least `mcycle_price` per million cycles after gas.
pub open spec fn lockable_worth(
    order: OrderRequest,
    cycles: u64,
    gas_cost: nat,
    mcycle_price: nat,
) -> bool {
    per_mcycle(sat_sub(order.request.offer.max_price@, gas_cost), cycles as nat) >= mcycle_price
}

/// What an order to be locked comes to.
pub open spec fn lockable_outcome(
    order: OrderRequest,
    cycles: u64,
    gas_cost: nat,
    mcycle_price: nat,
) -> OrderPricingOutcome {
    if lockable_worth(order, cycles, gas_cost, mcycle_price) {
        OrderPricingOutcome::Lock {
            total_cycles: cycles,
            target_timestamp_secs: 0,
            expiry_secs: order.request.offer.lock_expiration() as u64,
        }
    } else {
        OrderPricingOutcome::Skip
    }
}

/// The reward pays at least `mcycle_price` stake tokens per million cycles.
pub open spec fn lock_expired_worth(order: OrderRequest, cycles: u64, mcycle_price: nat) -> bool {
    per_mcycle(order.request.offer.stake_reward@, cycles as nat) >= mcycle_price
}

/// What an order with an expired lock comes to.
pub open spec fn lock_expired_outcome(
    order: OrderRequest,
    cycles: u64,
    mcycle_price: nat,
) -> OrderPricingOutcome {
    if lock_expired_worth(order, cycles, mcycle_price) {
        OrderPricingOutcome::ProveAfterLockExpire {
            total_cycles: cycles,
            lock_expire_timestamp_secs: order.request.offer.lock_expiration() as u64,
            expiry_secs: order.request.offer.order_expiration() as u64,
        }
    } else {
        OrderPricingOutcome::Skip
    }
}

/// The least price per million cycles that orders of this kind are held to:
/// in wei where the order is to be locked, in the stake token's smallest unit
/// where its lock has expired. A chain of causes where the configured text is no
/// amount.
pub open spec fn configured_price(
    picker: OrderPicker,
    config: MarketConfig,
    lock_expired: bool,
) -> Result<nat, Seq<Seq<char>>> {
    if lock_expired {
        parsed_units(config.mcycle_price_stake_token@, picker.stake_token_decimals)
    } else {
        parsed_ether(config.mcycle_price@)
    }
}

/// The text of the configured price can be read.
pub open spec fn price_readable(
    picker: OrderPicker,
    config: MarketConfig,
    lock_expired: bool,
) -> bool {
    if lock_expired {
        readable(config.mcycle_price_stake_token@, picker.stake_token_decimals)
    } else {
        readable(config.mcycle_price@, ETHER_DECIMALS)
    }
}

/// The error for a configured price that is no amount; `causes` says why.
pub open spec fn price_error(causes: Seq<Seq<char>>) -> OrderPickerErrView {
    OrderPickerErrView::UnexpectedErr(ErrContext::ParseMcyclePrice, causes)
}

/// What evaluating an order comes to, given the configured price.
pub open spec fn evaluation(
    order: OrderRequest,
    cycles: u64,
    gas_cost: nat,
    lock_expired: bool,
    mcycle_price: Result<nat, Seq<Seq<char>>>,
) -> Result<OrderPricingOutcome, OrderPickerErrView> {
    match mcycle_price {
        Ok(price) => Ok(
            if lock_expired {
                lock_expired_outcome(order, cycles, price)
            } else {
                lockable_outcome(order, cycles, gas_cost, price)
            },
        ),
        Err(causes) => Err(price_error(causes)),
    }
}

/// An order can be evaluated at the configured price: it needs cycles, and the
/// deadlines that it is taken on with fit in 64 bits. Without a price, there is
/// nothing to compute.
pub open spec fn evaluable(
    order: OrderRequest,
    cycles: u64,
    gas_cost: nat,
    lock_expired: bool,
    mcycle_price: Result<nat, Seq<Seq<char>>>,
) -> bool {
    mcycle_price matches Ok(price) ==> {
        &&& cycles > 0
        &&& if lock_expired {
            lock_expired_worth(order, cycles, price) ==> order.request.offer.deadlines_fit()
        } else {
            lockable_worth(order, cycles, gas_cost, price)
                ==> order.request.offer.lock_expiration() <= u64::MAX
        }
    }
}

/// The cycles that a reward pays for at `mcycle_price` per million; `u64::MAX`
/// where that is no bound: the price is zero, or the number has no place in 64
/// bits.
pub open spec fn rewarded_cycles(stake_reward: nat, mcycle_price: nat) -> u64 {
    let cycles = sat_mul(stake_reward, ONE_MILLION as nat) / mcycle_price;
    if mcycle_price > 0 && cycles <= u64::MAX {
        cycles as u64
    } else {
        u64::MAX
    }
}

/// The most cycles to run of an order ahead of proving it: no more than it is
/// taken to need, and no more than can be proven in the time that is left,
/// where the rate is known.
pub open spec fn cycle_limit(estimate: u64, peak_prove_khz: Option<u64>, seconds_left: u64) -> u64 {
    match peak_prove_khz {
        Some(khz) => if max_cycles_for_time(khz, seconds_left) < estimate {
            max_cycles_for_time(khz, seconds_left)
        } else {
            estimate
        },
        None => estimate,
    }
}

/// The cycles that an order is taken to need, and how many of them may be run
/// ahead of proving it.
#[derive(Clone, Copy, Debug, PartialEq, Eq, Structural)]
pub struct RunPlan {
    pub cycles: u64,
    pub limit: u64,
}

/// How many cycles of an order to expect and to run, at a price per million
/// cycles. Once its lock has expired, an order is run only as far as its reward
/// pays.
pub open spec fn run_plan_at(
    order: OrderRequest,
    gas_cost: nat,
    mcycle_price: nat,
    config: MarketConfig,
    seconds_left: u64,
) -> RunPlan {
    let cycles = if order.lock_expired() {
        LOCK_EXPIRED_CYCLES
    } else {
        lockable_cycles(
            affordable_cycles(order.request.offer.max_price@, gas_cost, mcycle_price),
            config.mcycle_limit_for(order.request.client_address),
        ) as u64
    };
    let rewarded = rewarded_cycles(order.request.offer.stake_reward@, mcycle_price);
    let paid_for = if order.lock_expired() && rewarded < cycles {
        rewarded
    } else {
        cycles
    };
    RunPlan { cycles, limit: cycle_limit(paid_for, config.peak_prove_khz, seconds_left) }
}

/// How many cycles of an order to expect and to run, given the configured price.
pub open spec fn run_plan(
    order: OrderRequest,
    gas_cost: nat,
    config: MarketConfig,
    seconds_left: u64,
    mcycle_price: Result<nat, Seq<Seq<char>>>,
) -> Result<RunPlan, OrderPickerErrView> {
    match mcycle_price {
        Ok(price) => Ok(run_plan_at(order, gas_cost, price, config, seconds_left)),
        Err(causes) => Err(price_error(causes)),
    }
}

/// The cycles that an order can pay for.
pub fn affordable(max_price: U256, gas_cost: U256, mcycle_price: U256) -> (r: u64)
    ensures
        r == affordable_cycles(max_price@, gas_cost@, mcycle_price@),
{
    if U256::from_u64(0).lt(mcycle_price) && gas_cost.lt(max_price) {
        let budget = max_price.saturating_sub(gas_cost).saturating_mul(U256::from_u64(ONE_MILLION));
        match budget.divide(mcycle_price).to_u64() {
            Some(cycles) => cycles,
            None => FALLBACK_CYCLES,
        }
    } else {
        FALLBACK_CYCLES
    }
}

/// The cycles that a reward pays for.
pub fn rewarded(stake_reward: U256, mcycle_price: U256) -> (r: u64)
    ensures
        r == rewarded_cycles(stake_reward@, mcycle_price@),
{
    if U256::from_u64(0).lt(mcycle_price) {
        let budget = stake_reward.saturating_mul(U256::from_u64(ONE_MILLION));
        match budget.divide(mcycle_price).to_u64() {
            Some(cycles) => cycles,
            None => u64::MAX,
        }
    } else {
        u64::MAX
    }
}

/// The most cycles to run of an order ahead of proving it: no more than it is
/// taken to need, and no more than can be proven in the time that is left.
pub fn preflight_cycle_limit(estimate: u64, peak_prove_khz: Option<u64>, seconds_left: u64) -> (r:
    u64)
    ensures
        r == cycle_limit(estimate, peak_prove_khz, seconds_left),
{
    match peak_prove_khz {
        Some(khz) => {
            let deadline_limit: u64 = calculate_max_cycles_for_time(khz, seconds_left);
            if deadline_limit < estimate {
                deadline_limit
            } else {
                estimate
            }
        },
        None => estimate,
    }
}

/// Stands in for an execution of an order that has not been run.
pub fn synthetic_proof_result(order_id: &str, cycles: u64) -> (r: ProofResult)
    ensures
        r.id@ == "synthetic-"@ + order_id@,
        r.stats.segments * 100_000 <= cycles < (r.stats.segments + 1) * 100_000,
        r.stats.user_cycles == r.stats.total_cycles,
        r.stats == (ExecutorResp {
            segments: cycles / CYCLES_PER_SEGMENT,
            user_cycles: cycles,
            total_cycles: cycles,
            assumption_count: 0,
        }),
{
    let mut id = String::new();
    id.append("synthetic-");
    id.append(order_id);
    assert(id@ =~= "synthetic-"@ + order_id@);
    ProofResult {
        id,
        stats: ExecutorResp {
            segments: cycles / CYCLES_PER_SEGMENT,
            user_cycles: cycles,
            total_cycles: cycles,
            assumption_count: 0,
        },
    }
}

impl OrderPicker {
    /// The cycles that an order to be locked is taken to need, at a price per
    /// million cycles and within a limit on millions of cycles.
    pub fn estimate_lockable_cycles_at(
        &self,
        order: &OrderRequest,
        gas_cost: U256,
        mcycle_price: U256,
        mcycle_limit: Option<u64>,
    ) -> (r: u64)
        requires
            limit_fits(mcycle_limit),
        ensures
            r == lockable_cycles(
                affordable_cycles(order.request.offer.max_price@, gas_cost@, mcycle_price@),
                mcycle_limit,
            ),
    {
        let max_affordable: u64 = affordable(order.request.offer.max_price, gas_cost, mcycle_price);
        let within_limit: u64 = match mcycle_limit {
            Some(limit) => {
                let limit_cycles: u64 = limit * ONE_MILLION;
                if limit_cycles < max_affordable {
                    limit_cycles
                } else {
                    max_affordable
                }
            },
            None => max_affordable,
        };
        if within_limit < MIN_LOCKABLE_CYCLES {
            MIN_LOCKABLE_CYCLES
        } else {
            within_limit
        }
    }

    /// How many cycles of an order to expect and to run, at a price per million
    /// cycles.
    pub fn plan_run_at(
        &self,
        order: &OrderRequest,
        gas_cost: U256,
        mcycle_price: U256,
        config: &MarketConfig,
        seconds_left: u64,
    ) -> (r: RunPlan)
        requires
            !order.lock_expired() ==> limit_fits(
                config.mcycle_limit_for(order.request.client_address),
            ),
        ensures
            r == run_plan_at(*order, gas_cost@, mcycle_price@, *config, seconds_left),
    {
        if order.is_lock_expired() {
            let rewarded: u64 = rewarded(order.request.offer.stake_reward, mcycle_price);
            let paid_for: u64 = if rewarded < LOCK_EXPIRED_CYCLES {
                rewarded
            } else {
                LOCK_EXPIRED_CYCLES
            };
            let limit: u64 = preflight_cycle_limit(paid_for, config.peak_prove_khz, seconds_left);
            RunPlan { cycles: LOCK_EXPIRED_CYCLES, limit }
        } else {
            let cycles: u64 = self.estimate_lockable_cycles_at(
                order,
                gas_cost,
                mcycle_price,
                config.client_mcycle_limit(order.request.client_address),
            );
            let limit: u64 = preflight_cycle_limit(cycles, config.peak_prove_khz, seconds_left);
            RunPlan { cycles, limit }
        }
    }

    /// How many cycles of an order to expect and to run under a configuration;
    /// fails where its price per million cycles is no amount.
    pub fn plan_run(
        &self,
        order: &OrderRequest,
        gas_cost: U256,
        config: &MarketConfig,
        seconds_left: u64,
    ) -> (r: Result<RunPlan, OrderPickerErr>)
        requires
            price_readable(*self, *config, order.lock_expired()),
            !order.lock_expired() && parsed_ether(config.mcycle_price@) is Ok ==> limit_fits(
                config.mcycle_limit_for(order.request.client_address),
            ),
        ensures
            result_view(r) == run_plan(
                *order,
                gas_cost@,
                *config,
                seconds_left,
                configured_price(*self, *config, order.lock_expired()),
            ),
    {
        let read = if order.is_lock_expired() {
            parse_units(config.mcycle_price_stake_token.as_str(), self.stake_token_decimals)
        } else {
            parse_ether(config.mcycle_price.as_str())
        };
        match read {
            Ok(price) => Ok(self.plan_run_at(order, gas_cost, price, config, seconds_left)),
            Err(causes) => Err(OrderPickerErr::UnexpectedErr(ErrContext::ParseMcyclePrice, causes)),
        }
    }

    /// Evaluates an order: one to be locked by its price, one whose lock has
    /// expired by its reward.
    pub fn evaluate_order(
        &self,
        order: &OrderRequest,
        proof_res: &ProofResult,
        order_gas_cost: U256,
        lock_expired: bool,
        config: &MarketConfig,
    ) -> (r: Result<OrderPricingOutcome, OrderPickerErr>)
        requires
            price_readable(*self, *config, lock_expired),
            evaluable(
                *order,
                proof_res.stats.total_cycles,
                order_gas_cost@,
                lock_expired,
                configured_price(*self, *config, lock_expired),
            ),
        ensures
            result_view(r) == evaluation(
                *order,
                proof_res.stats.total_cycles,
                order_gas_cost@,
                lock_expired,
                configured_price(*self, *config, lock_expired),
            ),
    {
        if lock_expired {
            self.evaluate_lock_expired_order(order, proof_res, config)
        } else {
            self.evaluate_lockable_order(order, proof_res, order_gas_cost, config)
        }
    }

    /// Whether an order to be locked is worth picking, at a price per million
    /// cycles.
    pub fn evaluate_lockable_order_at(
        &self,
        order: &OrderRequest,
        proof_res: &ProofResult,
        order_gas_cost: U256,
        mcycle_price: U256,
    ) -> (r: OrderPricingOutcome)
        requires
            proof_res.stats.total_cycles > 0,
            lockable_worth(
                *order,
                proof_res.stats.total_cycles,
                order_gas_cost@,
                mcycle_price@,
            ) ==> order.request.offer.lock_expiration() <= u64::MAX,
        ensures
            r == lockable_outcome(
                *order,
                proof_res.stats.total_cycles,
                order_gas_cost@,
                mcycle_price@,
            ),
    {
        let mcycle_price_max = order.request.offer.max_price.saturating_sub(
            order_gas_cost,
        ).saturating_mul(U256::from_u64(ONE_MILLION)).divide(
            U256::from_u64(proof_res.stats.total_cycles),
        );
        if mcycle_price_max.lt(mcycle_price) {
            return OrderPricingOutcome::Skip;
        }
        OrderPricingOutcome::Lock {
            total_cycles: proof_res.stats.total_cycles,
            target_timestamp_secs: 0,
            expiry_secs: order.request.offer.bidding_start + order.request.offer.lock_timeout as u64,
        }
    }

    /// Whether an order to be locked is worth picking, at the configured price
    /// per million cycles; fails where that is no amount.
    pub fn evaluate_lockable_order(
        &self,
        order: &OrderRequest,
        proof_res: &ProofResult,
        order_gas_cost: U256,
        config: &MarketConfig,
    ) -> (r: Result<OrderPricingOutcome, OrderPickerErr>)
        requires
            readable(config.mcycle_price@, ETHER_DECIMALS),
            evaluable(
                *order,
                proof_res.stats.total_cycles,
                order_gas_cost@,
                false,
                parsed_ether(config.mcycle_price@),
            ),
        ensures
            result_view(r) == evaluation(
                *order,
                proof_res.stats.total_cycles,
                order_gas_cost@,
                false,
                parsed_ether(config.mcycle_price@),
            ),
    {
        match parse_ether(config.mcycle_price.as_str()) {
            Ok(price) => Ok(
                self.evaluate_lockable_order_at(order, proof_res, order_gas_cost, price),
            ),
            Err(causes) => Err(OrderPickerErr::UnexpectedErr(ErrContext::ParseMcyclePrice, causes)),
        }
    }

    /// Whether an order whose lock has expired is worth picking, at a price per
    /// million cycles in stake tokens.
    pub fn evaluate_lock_expired_order_at(
        &self,
        order: &OrderRequest,
        proof_res: &ProofResult,
        mcycle_price: U256,
    ) -> (r: OrderPricingOutcome)
        requires
            proof_res.stats.total_cycles > 0,
            lock_expired_worth(*order, proof_res.stats.total_cycles, mcycle_price@)
                ==> order.request.offer.deadlines_fit(),
        ensures
            r == lock_expired_outcome(*order, proof_res.stats.total_cycles, mcycle_price@),
    {
        let mcycle_price_in_stake_tokens = order.request.offer.stake_reward.saturating_mul(
            U256::from_u64(ONE_MILLION),
        ).divide(U256::from_u64(proof_res.stats.total_cycles));
        if mcycle_price_in_stake_tokens.lt(mcycle_price) {
            return OrderPricingOutcome::Skip;
        }
        OrderPricingOutcome::ProveAfterLockExpire {
            total_cycles: proof_res.stats.total_cycles,
            lock_expire_timestamp_secs: order.request.offer.bidding_start
                + order.request.offer.lock_timeout as u64,
            expiry_secs: order.request.offer.bidding_start + order.request.offer.timeout as u64,
        }
    }

    /// Whether an order whose lock has expired is worth picking, by the part of
    /// the slashed stake that can be recovered and the configured price per
    /// million cycles in stake tokens; fails where that is no amount.
    pub fn evaluate_lock_expired_order(
        &self,
        order: &OrderRequest,
        proof_res: &ProofResult,
        config: &MarketConfig,
    ) -> (r: Result<OrderPricingOutcome, OrderPickerErr>)
        requires
            readable(config.mcycle_price_stake_token@, self.stake_token_decimals),
            evaluable(
                *order,
                proof_res.stats.total_cycles,
                0,
                true,
                parsed_units(config.mcycle_price_stake_token@, self.stake_token_decimals),
            ),
        ensures
            result_view(r) == evaluation(
                *order,
                proof_res.stats.total_cycles,
                0,
                true,
                parsed_units(config.mcycle_price_stake_token@, self.stake_token_decimals),
            ),
    {
        match parse_units(config.mcycle_price_stake_token.as_str(), self.stake_token_decimals) {
            Ok(price) => Ok(self.evaluate_lock_expired_order_at(order, proof_res, price)),
            Err(causes) => Err(OrderPickerErr::UnexpectedErr(ErrContext::ParseMcyclePrice, causes)),
        }
    }
}

} // verus!
