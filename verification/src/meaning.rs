//! What each part gives, told from what goes into it.
//!
//! Every law here speaks of plain inputs and results: entries of a list, sums,
//! products and bounds.

use vstd::prelude::*;
use vstd::utf8::{
    encode_utf8, encode_utf8_valid_utf8, is_char_boundary,
    is_char_boundary_iff_not_is_continuation_byte,
};

use crate::config::MarketConfig;
use crate::error::{
    cause_words, chain_words, decimal_words, digit_words, indented, number_pad, numbered_words,
    outermost_words, result_view, ErrContext, OrderPickerErr, OrderPickerErrView,
};
use crate::evaluate::{
    affordable_cycles, configured_price, cycle_limit, evaluable, evaluation, limit_fits,
    lock_expired_outcome, lock_expired_worth, lockable_cycles, lockable_outcome, lockable_worth,
    per_mcycle, price_error, price_readable, rewarded_cycles, run_plan, run_plan_at,
};
use crate::gas::{total_gas, GasBill};
use crate::laws::lemma_quotient_reaches;
use crate::order::{Address, FulfillmentType, Journal, OrderRequest};
use crate::outcome::{OrderPricingOutcome, SkipReason};
use crate::picker::{max_cycles_for_time, OrderPicker};
use crate::pricing::{
    deadline_reason, filter_reason, funds_reason, journal_reason, run_reason, stake_cap_reason,
    GasFunds, PricingStep, PricingStepView,
};
use crate::schedule::{
    admission, change_of, config_fault_view, no_change, Admission, PricingSchedule,
};
use crate::u256::{sat_mul, sat_sub, u256_max};
use crate::units::{is_first_dot, parsed_ether, parsed_units, readable};
use crate::update::{order_updated, update_after, OrderUpdate};

verus! {

// Amounts.

/// A difference that stops at zero makes up for what was taken away, or is zero
/// because too much was.
pub proof fn law_difference_stops_at_zero(a: nat, b: nat)
    ensures
        b <= a ==> sat_sub(a, b) + b == a,
        a <= b ==> sat_sub(a, b) == 0,
{
}

/// A product that stops at the largest amount is exact up to there.
pub proof fn law_product_stops_at_the_largest_amount(a: nat, b: nat)
    ensures
        u256_max() + 1 == 0x1_0000_0000_0000_0000_0000_0000_0000_0000_0000_0000_0000_0000_0000_0000_0000_0000nat,
        a * b < 0x1_0000_0000_0000_0000_0000_0000_0000_0000_0000_0000_0000_0000_0000_0000_0000_0000nat
            ==> sat_mul(a, b) == a * b,
        a * b >= 0x1_0000_0000_0000_0000_0000_0000_0000_0000_0000_0000_0000_0000_0000_0000_0000_0000nat
            ==> sat_mul(a, b) == u256_max(),
{
}

// Clients.

/// With an allow list, exactly the clients that equal one of its entries are
/// let through; without one, all are.
pub proof fn law_allow_list_lets_its_entries_through(config: MarketConfig, client: Address)
    ensures
        config.allow_client_addresses is None ==> config.allows(client),
        config.allow_client_addresses matches Some(list) ==> {
            &&& forall|i: int| 0 <= i < list@.len() && #[trigger] list@[i] == client
                ==> config.allows(client)
            &&& (forall|i: int| 0 <= i < list@.len() ==> #[trigger] list@[i] != client)
                ==> !config.allows(client)
        },
{
}

/// Every entry of the deny list refuses its client, and nobody else is refused.
pub proof fn law_deny_list_refuses_its_entries(config: MarketConfig, client: Address)
    ensures
        config.deny_requestor_addresses is None ==> !config.denies(client),
        config.deny_requestor_addresses matches Some(list) ==> {
            &&& forall|i: int| 0 <= i < list@.len() && #[trigger] list@[i] == client
                ==> config.denies(client)
            &&& (forall|i: int| 0 <= i < list@.len() ==> #[trigger] list@[i] != client)
                ==> !config.denies(client)
        },
{
}

/// Every entry of the priority list is free of the limit on cycles, and everybody
/// else is held to it as configured.
pub proof fn law_priority_list_lifts_the_limit(config: MarketConfig, client: Address)
    ensures
        config.priority_requestor_addresses is None ==> config.mcycle_limit_for(client)
            == config.max_mcycle_limit,
        config.priority_requestor_addresses matches Some(list) ==> {
            &&& forall|i: int| 0 <= i < list@.len() && #[trigger] list@[i] == client
                ==> config.mcycle_limit_for(client) is None
            &&& (forall|i: int| 0 <= i < list@.len() ==> #[trigger] list@[i] != client)
                ==> config.mcycle_limit_for(client) == config.max_mcycle_limit
        },
{
}

// Deadlines.

/// Deadlines count from the start of bidding. An order to be locked ends with its
/// lock, one that waits for another prover's lock with the request.
pub proof fn law_deadlines_count_from_the_start_of_bidding(order: OrderRequest)
    ensures
        ({
            let offer = order.request.offer;
            &&& offer.lock_expiration() == offer.bidding_start + offer.lock_timeout
            &&& offer.order_expiration() == offer.bidding_start + offer.timeout
            &&& offer.deadlines_fit() <==> offer.bidding_start + offer.lock_timeout
                < 0x1_0000_0000_0000_0000 && offer.bidding_start + offer.timeout
                < 0x1_0000_0000_0000_0000
            &&& match order.fulfillment_type {
                FulfillmentType::LockAndFulfill => {
                    &&& !order.lock_expired()
                    &&& order.expiration() == offer.bidding_start + offer.lock_timeout
                },
                FulfillmentType::FulfillAfterLockExpire => {
                    &&& order.lock_expired()
                    &&& order.expiration() == offer.bidding_start + offer.timeout
                },
            }
        }),
{
}

/// What can be proven in some time is rate times time, unless that has no place
/// in 64 bits.
pub proof fn law_cycles_are_rate_times_time(khz: u64, seconds: u64)
    ensures
        khz * 1_000 * seconds < 0x1_0000_0000_0000_0000 ==> max_cycles_for_time(khz, seconds)
            == khz * 1_000 * seconds,
        khz * 1_000 * seconds >= 0x1_0000_0000_0000_0000 ==> max_cycles_for_time(khz, seconds)
            == 0xffff_ffff_ffff_ffff,
{
}

// Gas.

/// Gas estimates are summed: no estimate is no gas, one is itself, and each more
/// adds what it is, wherever it stands.
pub proof fn law_each_gas_estimate_counts_once(estimates: Seq<u64>, more: u64, i: int)
    ensures
        total_gas(Seq::empty()) == 0,
        total_gas(seq![more]) == more,
        total_gas(estimates.push(more)) == total_gas(estimates) + more,
        0 <= i <= estimates.len() ==> total_gas(estimates.insert(i, more)) == total_gas(estimates)
            + more,
{
    let one = seq![more];
    assert(one.drop_last() =~= Seq::empty());
    assert(estimates.push(more).drop_last() =~= estimates);
    if 0 <= i <= estimates.len() {
        let front = estimates.take(i);
        let back = estimates.skip(i);
        assert(estimates =~= front + back);
        assert(estimates.insert(i, more) =~= front + (one + back));
        crate::laws::law_gas_estimates_stack(front, back);
        crate::laws::law_gas_estimates_stack(one, back);
        crate::laws::law_gas_estimates_stack(front, one + back);
    }
}

/// Gas costs its price for every unit, and what is reserved is the gas to lock and
/// the gas to fulfill at that price; the balance itself is not touched.
pub proof fn law_gas_costs_its_price(bill: GasBill, funds: GasFunds)
    ensures
        bill.amount() == bill.price * bill.gas,
        funds.reserved() == funds.gas_price * funds.lock_pending_gas + funds.gas_price
            * funds.fulfill_pending_gas,
        funds.available() == funds.balance@,
        funds.gas_fits() <==> funds.lock_pending_gas + funds.fulfill_pending_gas
            < 0x1_0000_0000_0000_0000,
{
    let price = bill.price;
    let gas = bill.gas;
    assert(price * gas >= 0) by (nonlinear_arith)
        requires
            price >= 0,
            gas >= 0,
    ;
    let p = funds.gas_price as int;
    let lock = funds.lock_pending_gas as int;
    let fulfill = funds.fulfill_pending_gas as int;
    assert(p * (lock + fulfill) == p * lock + p * fulfill && p * lock >= 0 && p * fulfill >= 0)
        by (nonlinear_arith)
        requires
            p >= 0,
            lock >= 0,
            fulfill >= 0,
    ;
}

// Cycles.

/// What an amount comes to per million cycles is rounded down.
pub proof fn law_price_per_million_is_rounded_down(amount: nat, cycles: nat)
    requires
        cycles > 0,
    ensures
        ({
            let paid = sat_mul(amount, 1_000_000);
            let each = per_mcycle(amount, cycles);
            each * cycles <= paid && paid < (each + 1) * cycles
        }),
{
    let paid = sat_mul(amount, 1_000_000);
    let each = per_mcycle(amount, cycles);
    lemma_quotient_reaches(paid, cycles, each);
    lemma_quotient_reaches(paid, cycles, each + 1);
}

/// An order affords as many cycles as what is left of its price after gas pays
/// for, and not one more. Where that is no bound, four billion are taken instead.
pub proof fn law_order_affords_what_its_price_pays_for(
    max_price: nat,
    gas_cost: nat,
    mcycle_price: nat,
)
    ensures
        ({
            let cycles = affordable_cycles(max_price, gas_cost, mcycle_price);
            let paid = sat_mul((max_price - gas_cost) as nat, 1_000_000);
            if mcycle_price == 0 || gas_cost >= max_price || paid >= mcycle_price
                * 0x1_0000_0000_0000_0000 {
                cycles == 4_000_000_000
            } else {
                cycles * mcycle_price <= paid && paid < (cycles + 1) * mcycle_price
            }
        }),
{
    if mcycle_price > 0 && gas_cost < max_price {
        let paid = sat_mul((max_price - gas_cost) as nat, 1_000_000);
        let exact = paid / mcycle_price;
        lemma_quotient_reaches(paid, mcycle_price, exact);
        lemma_quotient_reaches(paid, mcycle_price, exact + 1);
        lemma_quotient_reaches(paid, mcycle_price, 0x1_0000_0000_0000_0000);
        assert(0x1_0000_0000_0000_0000 * mcycle_price == mcycle_price * 0x1_0000_0000_0000_0000)
            by (nonlinear_arith);
    }
}

/// The estimate of an order to be locked is what it affords, held to the limit, and
/// a hundred million where that is less.
pub proof fn law_estimate_is_what_is_afforded_within_the_limit(
    affordable: nat,
    mcycle_limit: Option<u64>,
)
    ensures
        ({
            let estimate = lockable_cycles(affordable, mcycle_limit);
            match mcycle_limit {
                None => {
                    &&& affordable >= 100_000_000 ==> estimate == affordable
                    &&& affordable <= 100_000_000 ==> estimate == 100_000_000
                },
                Some(limit) => {
                    &&& affordable >= limit * 1_000_000 && limit >= 100 ==> estimate == limit
                        * 1_000_000
                    &&& 100_000_000 <= affordable <= limit * 1_000_000 ==> estimate == affordable
                    &&& affordable <= 100_000_000 ==> estimate == 100_000_000
                    &&& limit <= 100 ==> estimate == 100_000_000
                },
            }
        }),
{
}

/// A limit can be counted in cycles if a million times it has a place in 64 bits.
pub proof fn law_limit_is_in_millions(mcycle_limit: Option<u64>)
    ensures
        limit_fits(mcycle_limit) <==> (mcycle_limit is None || mcycle_limit->0 * 1_000_000
            < 0x1_0000_0000_0000_0000),
{
}

/// A reward pays for as many cycles as it covers at the price, and not one more.
/// A price of zero, or a number that has no place in 64 bits, is no bound.
pub proof fn law_reward_pays_for_what_it_covers(stake_reward: nat, mcycle_price: nat)
    ensures
        ({
            let cycles = rewarded_cycles(stake_reward, mcycle_price);
            let paid = sat_mul(stake_reward, 1_000_000);
            if mcycle_price == 0 || paid >= mcycle_price * 0x1_0000_0000_0000_0000 {
                cycles == 0xffff_ffff_ffff_ffff
            } else {
                cycles * mcycle_price <= paid && paid < (cycles + 1) * mcycle_price
            }
        }),
{
    if mcycle_price > 0 {
        let paid = sat_mul(stake_reward, 1_000_000);
        let exact = paid / mcycle_price;
        lemma_quotient_reaches(paid, mcycle_price, exact);
        lemma_quotient_reaches(paid, mcycle_price, exact + 1);
        lemma_quotient_reaches(paid, mcycle_price, 0x1_0000_0000_0000_0000);
        assert(0x1_0000_0000_0000_0000 * mcycle_price == mcycle_price * 0x1_0000_0000_0000_0000)
            by (nonlinear_arith);
    }
}

/// The limit on a run is the estimate, or what can be proven in the time left
/// where a rate is given and that is less.
pub proof fn law_run_limit_is_the_lesser_bound(
    estimate: u64,
    peak_prove_khz: Option<u64>,
    seconds_left: u64,
)
    ensures
        ({
            let limit = cycle_limit(estimate, peak_prove_khz, seconds_left);
            match peak_prove_khz {
                None => limit == estimate,
                Some(khz) => {
                    &&& estimate <= khz * 1_000 * seconds_left ==> limit == estimate
                    &&& khz * 1_000 * seconds_left <= estimate ==> limit == khz * 1_000
                        * seconds_left
                },
            }
        }),
{
}

/// The plan for an order to be locked: its cycles are what it affords within its
/// client's limit, and all of them may be run that can be proven in time.
pub proof fn law_plan_of_an_order_to_be_locked(
    order: OrderRequest,
    gas_cost: nat,
    mcycle_price: nat,
    config: MarketConfig,
    seconds_left: u64,
)
    requires
        order.fulfillment_type == FulfillmentType::LockAndFulfill,
        limit_fits(config.mcycle_limit_for(order.request.client_address)),
    ensures
        ({
            let plan = run_plan_at(order, gas_cost, mcycle_price, config, seconds_left);
            let affordable = affordable_cycles(
                order.request.offer.max_price@,
                gas_cost,
                mcycle_price,
            );
            let mcycle_limit = config.mcycle_limit_for(order.request.client_address);
            &&& plan.cycles >= 100_000_000
            &&& plan.cycles > 100_000_000 ==> plan.cycles <= affordable
            &&& mcycle_limit matches Some(limit) ==> plan.cycles <= 100_000_000 || plan.cycles
                <= limit * 1_000_000
            // Nothing but the limit keeps the cycles below what is afforded.
            &&& plan.cycles < affordable ==> mcycle_limit is Some && (plan.cycles
                == mcycle_limit->0 * 1_000_000 || mcycle_limit->0 < 100 && plan.cycles
                == 100_000_000)
            // Nothing but time keeps cycles from being run.
            &&& plan.limit <= plan.cycles
            &&& config.peak_prove_khz matches Some(khz) ==> plan.limit <= khz * 1_000
                * seconds_left
            &&& plan.limit < plan.cycles ==> config.peak_prove_khz is Some && plan.limit
                == config.peak_prove_khz->0 * 1_000 * seconds_left
        }),
{
}

/// The plan for an order whose lock has expired: fifty million cycles, of which
/// as many may be run as the reward covers and can be proven in time, and no fewer.
pub proof fn law_plan_of_an_order_with_an_expired_lock(
    order: OrderRequest,
    gas_cost: nat,
    mcycle_price: nat,
    config: MarketConfig,
    seconds_left: u64,
)
    requires
        order.fulfillment_type == FulfillmentType::FulfillAfterLockExpire,
    ensures
        ({
            let plan = run_plan_at(order, gas_cost, mcycle_price, config, seconds_left);
            let paid = sat_mul(order.request.offer.stake_reward@, 1_000_000);
            &&& plan.cycles == 50_000_000
            &&& plan.limit <= 50_000_000
            &&& plan.limit * mcycle_price <= paid
            &&& config.peak_prove_khz matches Some(khz) ==> plan.limit <= khz * 1_000
                * seconds_left
            // Nothing but the reward or time keeps cycles from being run.
            &&& plan.limit < 50_000_000 ==> {
                ||| (plan.limit + 1) * mcycle_price > paid
                ||| config.peak_prove_khz is Some && plan.limit == config.peak_prove_khz->0
                    * 1_000 * seconds_left
            }
        }),
{
    let plan = run_plan_at(order, gas_cost, mcycle_price, config, seconds_left);
    let reward = order.request.offer.stake_reward@;
    let paid = sat_mul(reward, 1_000_000);
    let rewarded = rewarded_cycles(reward, mcycle_price);
    law_reward_pays_for_what_it_covers(reward, mcycle_price);
    let limit = plan.limit as int;
    let price = mcycle_price as int;
    if mcycle_price == 0 {
        assert(limit * price == 0) by (nonlinear_arith)
            requires
                price == 0,
        ;
    } else {
        lemma_quotient_reaches(paid, mcycle_price, plan.limit as nat);
        lemma_quotient_reaches(paid, mcycle_price, (plan.limit + 1) as nat);
        assert(plan.limit <= paid / mcycle_price);
    }
}

/// An order with an expired lock whose reward affords fifty million cycles may be
/// run in full where no proving rate is configured, and is not skipped for it.
pub proof fn law_well_paid_order_may_be_run_in_full(
    order: OrderRequest,
    gas_cost: nat,
    mcycle_price: nat,
    config: MarketConfig,
    seconds_left: u64,
)
    requires
        order.fulfillment_type == FulfillmentType::FulfillAfterLockExpire,
        config.peak_prove_khz is None,
        50_000_000 * mcycle_price <= sat_mul(order.request.offer.stake_reward@, 1_000_000),
    ensures
        ({
            let plan = run_plan_at(order, gas_cost, mcycle_price, config, seconds_left);
            plan.limit == 50_000_000 && run_reason(plan) is None
        }),
{
    let plan = run_plan_at(order, gas_cost, mcycle_price, config, seconds_left);
    law_plan_of_an_order_with_an_expired_lock(
        order,
        gas_cost,
        mcycle_price,
        config,
        seconds_left,
    );
    let limit = plan.limit as int;
    let price = mcycle_price as int;
    assert(limit < 50_000_000 ==> (limit + 1) * price <= 50_000_000 * price) by (nonlinear_arith)
        requires
            price >= 0,
    ;
}

/// A price that cannot be read fails the plan, and says why; one that can is
/// what the plan is made at.
pub proof fn law_plan_needs_a_price(
    order: OrderRequest,
    gas_cost: nat,
    config: MarketConfig,
    seconds_left: u64,
    price: nat,
    causes: Seq<Seq<char>>,
)
    ensures
        run_plan(order, gas_cost, config, seconds_left, Ok(price)) == Ok::<_, OrderPickerErrView>(
            run_plan_at(order, gas_cost, price, config, seconds_left),
        ),
        run_plan(order, gas_cost, config, seconds_left, Err(causes)) == Err::<
            crate::evaluate::RunPlan,
            _,
        >(OrderPickerErrView::UnexpectedErr(ErrContext::ParseMcyclePrice, causes)),
{
}

// Worth.

/// An order to be locked is worth it if and only if what is left of its price
/// after gas covers its cycles at the configured price.
pub proof fn law_worth_locking_iff_the_price_covers_the_cycles(
    order: OrderRequest,
    cycles: u64,
    gas_cost: nat,
    mcycle_price: nat,
)
    requires
        cycles > 0,
    ensures
        ({
            let max_price = order.request.offer.max_price@;
            let left = if gas_cost <= max_price {
                (max_price - gas_cost) as nat
            } else {
                0
            };
            lockable_worth(order, cycles, gas_cost, mcycle_price) <==> mcycle_price * cycles
                <= sat_mul(left, 1_000_000)
        }),
{
    let paid = sat_mul(sat_sub(order.request.offer.max_price@, gas_cost), 1_000_000);
    lemma_quotient_reaches(paid, cycles as nat, mcycle_price);
}

/// An order whose lock has expired is worth it if and only if its reward covers
/// its cycles at the configured price.
pub proof fn law_worth_proving_iff_the_reward_covers_the_cycles(
    order: OrderRequest,
    cycles: u64,
    mcycle_price: nat,
)
    requires
        cycles > 0,
    ensures
        lock_expired_worth(order, cycles, mcycle_price) <==> mcycle_price * cycles <= sat_mul(
            order.request.offer.stake_reward@,
            1_000_000,
        ),
{
    let paid = sat_mul(order.request.offer.stake_reward@, 1_000_000);
    lemma_quotient_reaches(paid, cycles as nat, mcycle_price);
}

/// An order to be locked comes to a lock, at once and until the lock's deadline,
/// if its price covers its cycles, and to nothing otherwise.
pub proof fn law_evaluation_of_an_order_to_be_locked(
    order: OrderRequest,
    cycles: u64,
    gas_cost: nat,
    mcycle_price: nat,
    causes: Seq<Seq<char>>,
)
    requires
        cycles > 0,
        order.request.offer.bidding_start + order.request.offer.lock_timeout
            < 0x1_0000_0000_0000_0000,
    ensures
        ({
            let offer = order.request.offer;
            let left = if gas_cost <= offer.max_price@ {
                (offer.max_price@ - gas_cost) as nat
            } else {
                0
            };
            let covered = mcycle_price * cycles <= sat_mul(left, 1_000_000);
            let outcome = lockable_outcome(order, cycles, gas_cost, mcycle_price);
            &&& evaluation(order, cycles, gas_cost, false, Ok(mcycle_price)) == Ok::<
                _,
                OrderPickerErrView,
            >(outcome)
            &&& evaluation(order, cycles, gas_cost, false, Err(causes)) == Err::<
                OrderPricingOutcome,
                _,
            >(OrderPickerErrView::UnexpectedErr(ErrContext::ParseMcyclePrice, causes))
            &&& !covered ==> outcome is Skip
            &&& covered ==> {
                &&& outcome is Lock
                &&& outcome->Lock_total_cycles == cycles
                &&& outcome->target_timestamp_secs == 0
                &&& outcome->Lock_expiry_secs == offer.bidding_start + offer.lock_timeout
            }
        }),
{
    law_worth_locking_iff_the_price_covers_the_cycles(order, cycles, gas_cost, mcycle_price);
}

/// An order whose lock has expired comes to a proof, from the lock's deadline until
/// the request's, if its reward covers its cycles, and to nothing otherwise.
pub proof fn law_evaluation_of_an_order_with_an_expired_lock(
    order: OrderRequest,
    cycles: u64,
    gas_cost: nat,
    mcycle_price: nat,
    causes: Seq<Seq<char>>,
)
    requires
        cycles > 0,
        order.request.offer.deadlines_fit(),
    ensures
        ({
            let offer = order.request.offer;
            let covered = mcycle_price * cycles <= sat_mul(offer.stake_reward@, 1_000_000);
            let outcome = lock_expired_outcome(order, cycles, mcycle_price);
            &&& evaluation(order, cycles, gas_cost, true, Ok(mcycle_price)) == Ok::<
                _,
                OrderPickerErrView,
            >(outcome)
            &&& evaluation(order, cycles, gas_cost, true, Err(causes)) == Err::<
                OrderPricingOutcome,
                _,
            >(OrderPickerErrView::UnexpectedErr(ErrContext::ParseMcyclePrice, causes))
            &&& !covered ==> outcome is Skip
            &&& covered ==> {
                &&& outcome is ProveAfterLockExpire
                &&& outcome->ProveAfterLockExpire_total_cycles == cycles
                &&& outcome->lock_expire_timestamp_secs == offer.bidding_start
                    + offer.lock_timeout
                &&& outcome->ProveAfterLockExpire_expiry_secs == offer.bidding_start
                    + offer.timeout
            }
        }),
{
    law_worth_proving_iff_the_reward_covers_the_cycles(order, cycles, mcycle_price);
}

/// An order can always be evaluated without a price. With one, it needs cycles,
/// and its deadlines have to fit if it is taken on.
pub proof fn law_what_evaluation_asks_for(
    order: OrderRequest,
    cycles: u64,
    gas_cost: nat,
    lock_expired: bool,
    price: nat,
    causes: Seq<Seq<char>>,
)
    ensures
        evaluable(order, cycles, gas_cost, lock_expired, Err(causes)),
        cycles > 0 && order.request.offer.deadlines_fit() ==> evaluable(
            order,
            cycles,
            gas_cost,
            lock_expired,
            Ok(price),
        ),
        cycles == 0 ==> !evaluable(order, cycles, gas_cost, lock_expired, Ok(price)),
        cycles > 0 && !lock_expired && order.request.offer.bidding_start
            + order.request.offer.lock_timeout < 0x1_0000_0000_0000_0000 ==> evaluable(
            order,
            cycles,
            gas_cost,
            lock_expired,
            Ok(price),
        ),
        cycles > 0 && lock_expired && !lock_expired_worth(order, cycles, price) ==> evaluable(
            order,
            cycles,
            gas_cost,
            lock_expired,
            Ok(price),
        ),
        cycles > 0 && !lock_expired && !lockable_worth(order, cycles, gas_cost, price)
            ==> evaluable(order, cycles, gas_cost, lock_expired, Ok(price)),
{
}

/// An order to be locked is held to the price in ether, one whose lock has expired
/// to the price in stake tokens, by that token's decimals.
pub proof fn law_each_kind_of_order_has_its_price(picker: OrderPicker, config: MarketConfig)
    ensures
        configured_price(picker, config, false) == parsed_ether(config.mcycle_price@),
        configured_price(picker, config, true) == parsed_units(
            config.mcycle_price_stake_token@,
            picker.stake_token_decimals,
        ),
        price_readable(picker, config, false) <==> readable(config.mcycle_price@, 18),
        price_readable(picker, config, true) <==> readable(
            config.mcycle_price_stake_token@,
            picker.stake_token_decimals,
        ),
        forall|causes: Seq<Seq<char>>| #[trigger]
            price_error(causes) == OrderPickerErrView::UnexpectedErr(
                ErrContext::ParseMcyclePrice,
                causes,
            ),
{
}

// Reasons.

/// The filters refuse a client that equals no entry of the allow list, then one
/// that equals an entry of the deny list, then a kind of proof that cannot be
/// made; and nothing else.
pub proof fn law_filters_refuse_by_the_lists(order: OrderRequest, config: MarketConfig)
    ensures
        ({
            let client = order.request.client_address;
            let allowed = config.allow_client_addresses matches Some(list) ==> exists|i: int|
                0 <= i < list@.len() && #[trigger] list@[i] == client;
            let denied = config.deny_requestor_addresses matches Some(list) && exists|i: int|
                0 <= i < list@.len() && #[trigger] list@[i] == client;
            let reason = filter_reason(order, config);
            &&& reason == Some(SkipReason::NotAllowed) <==> !allowed
            &&& reason == Some(SkipReason::Denied) <==> allowed && denied
            &&& reason == Some(SkipReason::UnsupportedSelector) <==> allowed && !denied
                && !order.request.selector_supported
            &&& reason is None <==> allowed && !denied && order.request.selector_supported
        }),
{
}

/// An order has expired from its deadline on, and is too close to it with no more
/// than the least number of seconds left.
pub proof fn law_deadline_needs_more_than_the_minimum(
    order: OrderRequest,
    now: u64,
    min_deadline: u64,
)
    ensures
        ({
            let offer = order.request.offer;
            let deadline = match order.fulfillment_type {
                FulfillmentType::LockAndFulfill => offer.bidding_start + offer.lock_timeout,
                FulfillmentType::FulfillAfterLockExpire => offer.bidding_start + offer.timeout,
            };
            let reason = deadline_reason(order, now, min_deadline);
            &&& reason == Some(SkipReason::Expired) <==> now >= deadline
            &&& reason == Some(SkipReason::DeadlineTooClose) <==> now < deadline <= now
                + min_deadline
            &&& reason is None <==> deadline > now + min_deadline
        }),
{
}

/// Only an order to be locked can take too much stake.
pub proof fn law_stake_is_capped_only_where_it_is_locked(order: OrderRequest, max_stake: nat)
    ensures
        stake_cap_reason(order, max_stake) == Some(SkipReason::StakeTooHigh)
            <==> order.fulfillment_type == FulfillmentType::LockAndFulfill
            && order.request.offer.lock_stake@ > max_stake,
        stake_cap_reason(order, max_stake) is None <==> order.fulfillment_type
            == FulfillmentType::FulfillAfterLockExpire || order.request.offer.lock_stake@
            <= max_stake,
{
}

/// An order can be afforded if its gas and what is reserved are there together,
/// its stake is there, and its price covers its gas; the last two only where it
/// is to be locked. Otherwise the price, the gas and the stake are blamed, in
/// this order.
pub proof fn law_funds_cover_the_order_and_what_is_reserved(
    order: OrderRequest,
    gas_cost: nat,
    available_gas: nat,
    reserved_gas: nat,
    available_stake: nat,
)
    ensures
        ({
            let to_lock = order.fulfillment_type == FulfillmentType::LockAndFulfill;
            let gas_paid = to_lock ==> gas_cost <= order.request.offer.max_price@;
            let gas_there = gas_cost == 0 || gas_cost + reserved_gas <= available_gas;
            let stake_there = to_lock ==> order.request.offer.lock_stake@ <= available_stake;
            let reason = funds_reason(
                order,
                gas_cost,
                available_gas,
                reserved_gas,
                available_stake,
            );
            &&& reason == Some(SkipReason::GasExceedsMaxPrice) <==> !gas_paid
            &&& reason == Some(SkipReason::InsufficientGas) <==> gas_paid && !gas_there
            &&& reason == Some(SkipReason::InsufficientStake) <==> gas_paid && gas_there
                && !stake_there
            &&& reason is None <==> gas_paid && gas_there && stake_there
        }),
{
}

/// A run of fewer than two cycles is none; any other may be made.
pub proof fn law_run_needs_two_cycles(plan: crate::evaluate::RunPlan)
    ensures
        run_reason(plan) == Some(SkipReason::ExecLimitTooLow) <==> plan.limit == 0 || plan.limit
            == 1,
        run_reason(plan) is None <==> plan.limit >= 2,
{
}

/// A journal is refused for its size, then for what it says; none is not.
pub proof fn law_journal_is_small_and_as_asked(journal: Option<Journal>, max_bytes: usize)
    ensures
        ({
            let reason = journal_reason(journal, max_bytes);
            match journal {
                None => reason is None,
                Some(printed) => {
                    &&& reason == Some(SkipReason::JournalTooLarge) <==> printed.bytes@.len()
                        > max_bytes
                    &&& reason == Some(SkipReason::PredicateFailed) <==> printed.bytes@.len()
                        <= max_bytes && !printed.predicate_holds
                    &&& reason is None <==> printed.bytes@.len() <= max_bytes
                        && printed.predicate_holds
                },
            }
        }),
{
}

// Updates.

/// What is written into an order that is taken on is what pricing found, and
/// nothing else; an order that is not taken on is left as it is.
pub proof fn law_update_writes_what_pricing_found<E>(
    order: OrderRequest,
    pricing: Option<Result<OrderPricingOutcome, E>>,
)
    ensures
        ({
            let updated = order_updated(order, pricing);
            &&& updated.id == order.id
            &&& updated.request == order.request
            &&& updated.fulfillment_type == order.fulfillment_type
            &&& updated.image_id == order.image_id
            &&& updated.input_id == order.input_id
            &&& match pricing {
                Some(
                    Ok(
                        OrderPricingOutcome::Lock {
                            total_cycles,
                            target_timestamp_secs,
                            expiry_secs,
                        },
                    ),
                ) => {
                    &&& updated.total_cycles == Some(total_cycles)
                    &&& updated.target_timestamp == Some(target_timestamp_secs)
                    &&& updated.expire_timestamp == Some(expiry_secs)
                    &&& update_after(pricing) == OrderUpdate::SendPriced
                },
                Some(
                    Ok(
                        OrderPricingOutcome::ProveAfterLockExpire {
                            total_cycles,
                            lock_expire_timestamp_secs,
                            expiry_secs,
                        },
                    ),
                ) => {
                    &&& updated.total_cycles == Some(total_cycles)
                    &&& updated.target_timestamp == Some(lock_expire_timestamp_secs)
                    &&& updated.expire_timestamp == Some(expiry_secs)
                    &&& update_after(pricing) == OrderUpdate::SendPriced
                },
                Some(_) => updated == order && update_after(pricing) == OrderUpdate::InsertSkipped,
                None => updated == order && update_after(pricing) == OrderUpdate::Leave,
            }
        }),
{
}

/// A step that ends pricing comes to its outcome or its error; a skip, whatever
/// the reason, to a skip; another question to nothing yet. The step and its view
/// agree on it.
pub proof fn law_step_comes_to_its_outcome(
    step: PricingStep,
    reason: SkipReason,
    outcome: OrderPricingOutcome,
    error: OrderPickerErr,
)
    ensures
        step is Next <==> step.result_view() is None,
        step is Next <==> step@.result_view() is None,
        PricingStep::Skip(reason).result_view() == Some(
            Ok::<_, OrderPickerErr>(OrderPricingOutcome::Skip),
        ),
        PricingStep::Done(outcome).result_view() == Some(Ok::<_, OrderPickerErr>(outcome)),
        PricingStep::Fail(error).result_view() == Some(Err::<OrderPricingOutcome, _>(error)),
        PricingStepView::Skip(reason).result_view() == Some(
            Ok::<_, OrderPickerErrView>(OrderPricingOutcome::Skip),
        ),
        PricingStepView::Done(outcome).result_view() == Some(Ok::<_, OrderPickerErrView>(outcome)),
        PricingStepView::Fail(error@).result_view() == Some(
            Err::<OrderPricingOutcome, _>(error@),
        ),
{
}

/// The view of a step is that step, with its error as contracts speak of it.
pub proof fn law_step_view_is_the_step(step: PricingStep)
    ensures
        match step {
            PricingStep::Next(stage) => step@ == PricingStepView::Next(stage),
            PricingStep::Skip(reason) => step@ == PricingStepView::Skip(reason),
            PricingStep::Done(outcome) => step@ == PricingStepView::Done(outcome),
            PricingStep::Fail(error) => step@ == PricingStepView::Fail(error@),
        },
{
}

// The monitor.

/// Another order is wanted exactly while one waits and fewer are in pricing than
/// may be, whatever the numbers.
pub proof fn law_order_is_wanted_while_there_is_room(schedule: PricingSchedule)
    ensures
        schedule.pending_orders@.len() == 0 ==> !schedule.may_dispatch(),
        schedule.running >= schedule.capacity ==> !schedule.may_dispatch(),
        schedule.pending_orders@.len() >= 1 && schedule.running + 1 <= schedule.capacity
            ==> schedule.may_dispatch(),
{
}

/// An order whose id is remembered is dropped, any other is started.
pub proof fn law_known_orders_are_dropped(remembered: bool)
    ensures
        admission(remembered) == Admission::Start <==> !remembered,
        admission(remembered) == Admission::Duplicate <==> remembered,
{
}

/// A change is told if and only if there is one, with the value before and the
/// value after.
pub proof fn law_changes_are_told<T>(before: T, after: T)
    ensures
        change_of(before, after) is None <==> before == after,
        change_of(before, after) matches Some((old_value, new_value)) ==> old_value == before
            && new_value == after,
        no_change().capacity is None,
        no_change().priority_mode is None,
{
}

/// A configuration that the monitor cannot read is an unexpected error with a
/// single cause: its introduction, and what the configuration said.
pub proof fn law_config_fault_tells_its_cause(cause: Seq<char>)
    ensures
        config_fault_view(cause) matches OrderPickerErrView::UnexpectedErr(context, causes)
            && context == ErrContext::Unnamed && causes.len() == 1 && causes[0]
            == "Failed to read config: "@ + cause,
{
}

// Errors.

/// The words of each context, and the code and label of each kind of error.
pub proof fn law_errors_have_their_words(error: OrderPickerErr)
    ensures
        ErrContext::CheckRequestLocked.words()
            == "Failed to check if request is locked before pricing"@,
        ErrContext::ReadConfig.words() == "Failed to read config"@,
        ErrContext::ParseMaxStake.words() == "Failed to parse max_stake"@,
        ErrContext::ParseMcyclePrice.words() == "Failed to parse mcycle_price"@,
        ErrContext::GasPrice.words() == "Failed to get gas price"@,
        ErrContext::Unnamed.words() == ""@,
        match error {
            OrderPickerErr::FetchInputErr(_) => error.code_words() == "[B-OP-001]"@
                && error.label_words() == " failed to fetch / push input: "@,
            OrderPickerErr::FetchImageErr(_) => error.code_words() == "[B-OP-002]"@
                && error.label_words() == " failed to fetch / push image: "@,
            OrderPickerErr::GuestPanic(_) => error.code_words() == "[B-OP-003]"@
                && error.label_words() == " guest panicked: "@,
            OrderPickerErr::RequestError(_) => error.code_words() == "[B-OP-004]"@
                && error.label_words() == " invalid request: "@,
            OrderPickerErr::RpcErr(_) => error.code_words() == "[B-OP-005]"@
                && error.label_words() == " RPC error: "@,
            OrderPickerErr::UnexpectedErr(_, _) => error.code_words() == "[B-OP-500]"@
                && error.label_words() == " Unexpected error: "@,
        },
{
}

/// A failed fetch tells its outermost cause; a panic and a bad request tell theirs;
/// everything else tells its whole chain, after its context where it has one.
pub proof fn law_errors_tell_their_causes(error: OrderPickerErr)
    ensures
        match error {
            OrderPickerErr::FetchInputErr(causes) => causes@.len() > 0 ==> error.detail_words()
                == causes@[0]@,
            OrderPickerErr::FetchImageErr(causes) => causes@.len() > 0 ==> error.detail_words()
                == causes@[0]@,
            OrderPickerErr::GuestPanic(cause) => error.detail_words() == cause@,
            OrderPickerErr::RequestError(cause) => error.detail_words() == cause@,
            OrderPickerErr::RpcErr(causes) => error.detail_words() == chain_words(
                causes.deep_view(),
            ),
            OrderPickerErr::UnexpectedErr(context, causes) => {
                &&& context == ErrContext::Unnamed ==> error.detail_words() == chain_words(
                    causes.deep_view(),
                )
                &&& context != ErrContext::Unnamed ==> error.detail_words() == chain_words(
                    seq![context.words()] + causes.deep_view(),
                )
            },
        },
{
    if let OrderPickerErr::UnexpectedErr(context, causes) = error {
        let all = seq![context.words()] + causes.deep_view();
        assert(all.drop_first() =~= causes.deep_view());
    }
}

/// A chain is its outermost cause, then what that is due to: a single cause stands
/// alone, several are numbered.
pub proof fn law_chain_lists_every_cause(outermost: Seq<char>, causes: Seq<Seq<char>>)
    ensures
        ({
            let chain = chain_words(seq![outermost] + causes);
            &&& causes.len() == 0 ==> chain == outermost
            &&& causes.len() == 1 ==> chain == outermost + "\n\nCaused by:"@ + "\n    "@
                + indented(causes[0], "    "@)
            &&& causes.len() > 1 ==> chain == outermost + "\n\nCaused by:"@ + numbered_words(causes)
        }),
        outermost_words(seq![outermost] + causes) == outermost,
        chain_words(Seq::empty()) == Seq::<char>::empty(),
        outermost_words(Seq::empty()) == Seq::<char>::empty(),
{
    let all = seq![outermost] + causes;
    assert(all.drop_first() =~= causes);
    assert(all[0] == outermost);
    assert(chain_words(all) =~= outermost + cause_words(causes));
    if causes.len() == 0 {
        assert(outermost + cause_words(causes) =~= outermost);
    } else if causes.len() == 1 {
        assert(outermost + cause_words(causes) =~= outermost + "\n\nCaused by:"@ + "\n    "@
            + indented(causes[0], "    "@));
    } else {
        assert(outermost + cause_words(causes) =~= outermost + "\n\nCaused by:"@ + numbered_words(
            causes,
        ));
    }
}

/// Each cause more puts one more line under a numbered list: its number, counted
/// from zero, and its text.
pub proof fn law_each_cause_gets_its_number(causes: Seq<Seq<char>>, more: Seq<char>)
    ensures
        numbered_words(Seq::empty()) == Seq::<char>::empty(),
        numbered_words(causes.push(more)) == numbered_words(causes) + "\n"@ + number_pad(
            causes.len(),
        ) + decimal_words(causes.len()) + ": "@ + indented(more, "       "@),
{
    assert(causes.push(more).drop_last() =~= causes);
}

/// Text on one line is not moved; each new line starts with the padding; and a
/// text that is put together is moved as its parts are.
pub proof fn law_new_lines_are_moved_in(text: Seq<char>, more: Seq<char>, pad: Seq<char>)
    ensures
        (forall|i: int| 0 <= i < text.len() ==> #[trigger] text[i] != '\n') ==> indented(text, pad)
            == text,
        indented(seq!['\n'], pad) == seq!['\n'] + pad,
        indented(text + more, pad) == indented(text, pad) + indented(more, pad),
    decreases text.len() + more.len(),
{
    let line = seq!['\n'];
    assert(line.drop_last() =~= Seq::empty());
    assert(indented(line, pad) =~= line + pad) by {
        assert(line.last() == '\n');
        assert(indented(line.drop_last(), pad) =~= Seq::empty());
    }
    if text.len() > 0 {
        law_new_lines_are_moved_in(text.drop_last(), Seq::empty(), pad);
        if forall|i: int| 0 <= i < text.len() ==> #[trigger] text[i] != '\n' {
            assert forall|i: int| 0 <= i < text.drop_last().len() implies #[trigger] text.drop_last()[i]
                != '\n' by {
                assert(text.drop_last()[i] == text[i]);
            }
            assert(indented(text, pad) =~= text);
        }
    }
    if more.len() == 0 {
        assert(text + more =~= text);
        assert(indented(text, pad) + indented(more, pad) =~= indented(text, pad));
    } else {
        law_new_lines_are_moved_in(text, more.drop_last(), pad);
        assert((text + more).drop_last() =~= text + more.drop_last());
        assert((text + more).last() == more.last());
        assert(indented(text + more, pad) =~= indented(text, pad) + indented(more, pad));
    }
}

/// The number that decimal digits spell.
pub open spec fn decimal_value(digits: Seq<char>) -> int
    decreases digits.len(),
{
    if digits.len() == 0 {
        0
    } else {
        decimal_value(digits.drop_last()) * 10 + (digits.last() as int - '0' as int)
    }
}

/// A number in decimal spells that number with nothing but digits, and none too
/// many.
pub proof fn law_decimals_spell_the_number(number: nat)
    ensures
        decimal_value(decimal_words(number)) == number,
        forall|i: int| 0 <= i < decimal_words(number).len() ==> '0' <= #[trigger] decimal_words(
            number,
        )[i] <= '9',
        decimal_words(number).len() > 0,
        decimal_words(number).len() > 1 ==> decimal_words(number)[0] != '0',
    decreases number,
{
    reveal_strlit("0123456789");
    let digit = number % 10;
    let word = digit_words(digit);
    assert(word.len() == 1);
    assert(word[0] as int == '0' as int + digit) by {
        assert(digit == 0 || digit == 1 || digit == 2 || digit == 3 || digit == 4 || digit == 5
            || digit == 6 || digit == 7 || digit == 8 || digit == 9);
    }
    assert(word.drop_last() =~= Seq::empty());
    reveal_with_fuel(decimal_value, 2);
    if number >= 10 {
        let rest = decimal_words(number / 10);
        law_decimals_spell_the_number(number / 10);
        let all = decimal_words(number);
        assert(all =~= rest + word);
        assert(all.drop_last() =~= rest);
        assert(all.last() == word[0]);
        if number / 10 < 10 {
            assert(rest == digit_words(number / 10));
            let first = number / 10;
            assert(first == 1 || first == 2 || first == 3 || first == 4 || first == 5 || first == 6
                || first == 7 || first == 8 || first == 9);
            assert(rest[0] != '0');
        } else {
            lemma_decimals_of_large_numbers_are_long(number / 10);
        }
        assert(all[0] == rest[0]);
    } else {
        assert(decimal_words(number) == word);
    }
}

proof fn lemma_decimals_of_large_numbers_are_long(number: nat)
    requires
        number >= 10,
    ensures
        decimal_words(number).len() > 1,
    decreases number,
{
    reveal_strlit("0123456789");
    assert(digit_words(number % 10).len() == 1);
    if number / 10 >= 10 {
        lemma_decimals_of_large_numbers_are_long(number / 10);
    } else {
        assert(decimal_words(number / 10) == digit_words(number / 10));
        assert(digit_words(number / 10).len() == 1);
    }
}

/// Numbers are moved to the right of a column of five by spaces.
pub proof fn law_numbers_stand_in_a_column(number: nat)
    ensures
        number < 100_000 ==> number_pad(number).len() + decimal_words(number).len() == 5,
        number >= 10_000 ==> number_pad(number).len() == 0,
        forall|i: int| 0 <= i < number_pad(number).len() ==> #[trigger] number_pad(number)[i] == ' ',
{
    reveal_strlit("0123456789");
    reveal_strlit("    ");
    reveal_strlit("   ");
    reveal_strlit("  ");
    reveal_strlit(" ");
    reveal_strlit("");
    reveal_with_fuel(decimal_words, 5);
}

/// The view of an error is its kind and all its texts.
pub proof fn law_error_view_keeps_every_text(error: OrderPickerErr)
    ensures
        match error {
            OrderPickerErr::FetchInputErr(causes) => error@ matches OrderPickerErrView::FetchInputErr(
                texts,
            ) && texts.len() == causes@.len() && forall|i: int|
                0 <= i < texts.len() ==> #[trigger] texts[i] == causes@[i]@,
            OrderPickerErr::FetchImageErr(causes) => error@ matches OrderPickerErrView::FetchImageErr(
                texts,
            ) && texts.len() == causes@.len() && forall|i: int|
                0 <= i < texts.len() ==> #[trigger] texts[i] == causes@[i]@,
            OrderPickerErr::GuestPanic(cause) => error@ == OrderPickerErrView::GuestPanic(cause@),
            OrderPickerErr::RequestError(cause) => error@ == OrderPickerErrView::RequestError(cause@),
            OrderPickerErr::RpcErr(causes) => error@ matches OrderPickerErrView::RpcErr(texts)
                && texts.len() == causes@.len() && forall|i: int|
                0 <= i < texts.len() ==> #[trigger] texts[i] == causes@[i]@,
            OrderPickerErr::UnexpectedErr(
                context,
                causes,
            ) => error@ matches OrderPickerErrView::UnexpectedErr(context_view, texts)
                && context_view == context && texts.len() == causes@.len() && forall|i: int|
                0 <= i < texts.len() ==> #[trigger] texts[i] == causes@[i]@,
        },
{
}

/// The view of a result is the value itself, or the view of the error.
pub proof fn law_result_view_keeps_the_value<T>(value: T, error: OrderPickerErr)
    ensures
        result_view(Ok::<T, OrderPickerErr>(value)) == Ok::<T, OrderPickerErrView>(value),
        result_view(Err::<T, OrderPickerErr>(error)) == Err::<T, OrderPickerErrView>(error@),
{
}

// Reading amounts.

/// An amount cannot be read if and only if the unit has at most seventy-seven
/// decimals, and the byte that many places behind the first point goes on with a
/// character that began before it.
pub proof fn law_amount_is_readable_unless_cut_inside_a_character(amount: Seq<char>, decimals: u8)
    ensures
        !readable(amount, decimals) <==> decimals <= 77 && exists|d: int|
            {
                &&& 0 <= d < encode_utf8(amount).len()
                &&& #[trigger] encode_utf8(amount)[d] == '.' as u8
                &&& forall|i: int| 0 <= i < d ==> #[trigger] encode_utf8(amount)[i] != '.' as u8
                &&& d + 1 + decimals < encode_utf8(amount).len()
                &&& 0x80 <= encode_utf8(amount)[d + 1 + decimals] <= 0xbf
            },
{
    let bytes = encode_utf8(amount);
    encode_utf8_valid_utf8(amount);
    assert forall|d: int| 0 <= d && d + 1 + decimals < bytes.len() implies (#[trigger]
    is_char_boundary(bytes, d + 1 + decimals) <==> !(0x80 <= bytes[d + 1 + decimals] <= 0xbf)) by {
        let cut = d + 1 + decimals;
        is_char_boundary_iff_not_is_continuation_byte(bytes, cut);
    }
    assert('.' as u8 == 0x2e);
    if !readable(amount, decimals) {
        let d = choose|d: int| #[trigger]
            is_first_dot(bytes, d) && d + 1 + decimals < bytes.len() && !is_char_boundary(
                bytes,
                d + 1 + decimals,
            );
        assert(bytes[d] == '.' as u8);
    }
    if decimals <= 77 && exists|d: int|
        {
            &&& 0 <= d < bytes.len()
            &&& #[trigger] bytes[d] == '.' as u8
            &&& forall|i: int| 0 <= i < d ==> #[trigger] bytes[i] != '.' as u8
            &&& d + 1 + decimals < bytes.len()
            &&& 0x80 <= bytes[d + 1 + decimals] <= 0xbf
        } {
        let d = choose|d: int|
            {
                &&& 0 <= d < bytes.len()
                &&& #[trigger] bytes[d] == '.' as u8
                &&& forall|i: int| 0 <= i < d ==> #[trigger] bytes[i] != '.' as u8
                &&& d + 1 + decimals < bytes.len()
                &&& 0x80 <= bytes[d + 1 + decimals] <= 0xbf
            };
        assert(is_first_dot(bytes, d));
        assert(!is_char_boundary(bytes, d + 1 + decimals));
    }
}

} // verus!
