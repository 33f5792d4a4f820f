//! What holds of pricing as a whole.

use vstd::prelude::*;

use crate::config::MarketConfig;
use crate::error::{ErrContext, OrderPickerErr, OrderPickerErrView};
use crate::evaluate::{
    affordable_cycles, configured_price, lock_expired_worth, lockable_cycles, lockable_worth,
    per_mcycle, price_error, rewarded_cycles, run_plan_at, RunPlan, LOCK_EXPIRED_CYCLES,
    MIN_LOCKABLE_CYCLES, MIN_RUN_CYCLES, ONE_MILLION,
};
use crate::gas::{total_gas, GasBill};
use crate::order::{FulfillmentType, Journal, OrderRequest};
use crate::outcome::{OrderPricingOutcome, SkipReason};
use crate::picker::{max_cycles_for_time, OrderPicker};
use crate::pricing::{
    deadline_reason, failure, filter_reason, funds_reason, journal_reason, next_step, order_after,
    run_reason, stake_cap_reason, GasFunds, PricingEvent, PricingStage, PricingStepView,
};
use crate::schedule::{admission, Admission};
use crate::u256::{sat_mul, sat_sub, U256};
use crate::units::parsed_ether;
use crate::update::{order_updated, update_after, OrderUpdate};

verus! {

/// Answers to all questions that pricing an order can ask.
pub struct PricingAnswers {
    pub locked: bool,
    pub filters: MarketConfig,
    pub now: u64,
    pub stake_cap: MarketConfig,
    pub gas_price: u128,
    pub lock_gas: u64,
    pub fulfill_gas: u64,
    pub balance: U256,
    pub reserve_price: u128,
    pub pending_lock_gas: Vec<u64>,
    pub pending_fulfill_gas: Vec<u64>,
    pub stake_balance: U256,
    pub pending_stake: U256,
    pub image_id: String,
    pub input_id: String,
    pub cycle_config: MarketConfig,
    pub evaluation_config: MarketConfig,
    /// The program takes more cycles than may be run of it.
    pub runs_over: bool,
    pub journal: Option<Journal>,
}

impl PricingAnswers {
    /// The answer to a question.
    pub open spec fn to(self, stage: PricingStage) -> PricingEvent {
        match stage {
            PricingStage::LockCheck => PricingEvent::RequestLocked(self.locked),
            PricingStage::Filters => PricingEvent::Config(self.filters),
            PricingStage::Clock { .. } => PricingEvent::Clock(self.now),
            PricingStage::StakeCap { .. } => PricingEvent::Config(self.stake_cap),
            PricingStage::GasPrice { .. } => PricingEvent::GasPrice(self.gas_price),
            PricingStage::LockGas { .. } => PricingEvent::Gas(self.lock_gas),
            PricingStage::FulfillGas { .. } => PricingEvent::Gas(self.fulfill_gas),
            PricingStage::SignerBalance { .. } => PricingEvent::Balance(self.balance),
            PricingStage::ReservePrice { .. } => PricingEvent::GasPrice(self.reserve_price),
            PricingStage::PendingGas { .. } => PricingEvent::PendingGas {
                lock: self.pending_lock_gas,
                fulfill: self.pending_fulfill_gas,
            },
            PricingStage::StakeBalance { .. } => PricingEvent::StakeBalance {
                balance: self.stake_balance,
                pending_stake: self.pending_stake,
            },
            PricingStage::ImageUpload { .. } => PricingEvent::Uploaded(self.image_id),
            PricingStage::InputUpload { .. } => PricingEvent::Uploaded(self.input_id),
            PricingStage::CycleConfig { .. } => PricingEvent::Config(self.cycle_config),
            PricingStage::Preflight { .. } => if self.runs_over {
                PricingEvent::LimitExceeded
            } else {
                PricingEvent::Ran(self.journal)
            },
            PricingStage::Evaluation { .. } => PricingEvent::Config(self.evaluation_config),
        }
    }

    /// The sums of gas estimates that pricing an order takes fit in 64 bits.
    pub open spec fn gas_fits(self, order: OrderRequest) -> bool {
        &&& !order.lock_expired() ==> self.lock_gas + self.fulfill_gas <= u64::MAX
        &&& total_gas(self.pending_lock_gas@) + total_gas(self.pending_fulfill_gas@) <= u64::MAX
    }

    /// What gas for an order costs: to fulfill it, and to lock it where there
    /// is something to lock.
    pub open spec fn gas_cost(self, order: OrderRequest) -> nat {
        (self.gas_price * (if order.lock_expired() {
            self.fulfill_gas as int
        } else {
            self.lock_gas + self.fulfill_gas
        })) as nat
    }

    /// The gas of an order at its price.
    pub open spec fn bill(self, order: OrderRequest) -> GasBill {
        GasBill {
            price: self.gas_price,
            gas: if order.lock_expired() {
                self.fulfill_gas
            } else {
                (self.lock_gas + self.fulfill_gas) as u64
            },
        }
    }

    /// What is reserved to lock and fulfill all pending orders.
    pub open spec fn gas_reserved(self) -> nat {
        (self.reserve_price * (total_gas(self.pending_lock_gas@) + total_gas(
            self.pending_fulfill_gas@,
        ))) as nat
    }

    /// The seconds that an order has left.
    pub open spec fn seconds_left(self, order: OrderRequest) -> int {
        order.expiration() - self.now
    }

    /// Why the order cannot be afforded, if it cannot.
    pub open spec fn funds_reason(self, order: OrderRequest) -> Option<SkipReason> {
        funds_reason(
            order,
            self.gas_cost(order),
            self.balance@,
            self.gas_reserved(),
            sat_sub(self.stake_balance@, self.pending_stake@),
        )
    }

    /// Why the order is refused before its stake is looked at, if it is.
    pub open spec fn early_reason(self, order: OrderRequest) -> Option<SkipReason> {
        if order.fulfillment_type == FulfillmentType::LockAndFulfill && self.locked {
            Some(SkipReason::AlreadyLocked)
        } else if filter_reason(order, self.filters) is Some {
            filter_reason(order, self.filters)
        } else {
            deadline_reason(order, self.now, self.filters.min_deadline)
        }
    }

    /// How many cycles of an order to expect and to run, at a price per million.
    pub open spec fn plan(self, order: OrderRequest, mcycle_price: nat) -> RunPlan {
        run_plan_at(
            order,
            self.gas_cost(order),
            mcycle_price,
            self.cycle_config,
            self.seconds_left(order) as u64,
        )
    }

    /// Why an order is refused for what may be run of it or for what it prints,
    /// if it is, at a price per million.
    pub open spec fn run_reason(self, order: OrderRequest, mcycle_price: nat) -> Option<SkipReason> {
        if run_reason(self.plan(order, mcycle_price)) is Some {
            run_reason(self.plan(order, mcycle_price))
        } else if self.runs_over {
            Some(SkipReason::SessionLimitExceeded)
        } else {
            journal_reason(self.journal, self.evaluation_config.max_journal_bytes)
        }
    }

    /// The order pays for the cycles that it is expected to need, at the price
    /// that it is evaluated at.
    pub open spec fn worth(self, order: OrderRequest, plan: RunPlan, mcycle_price: nat) -> bool {
        if order.lock_expired() {
            lock_expired_worth(order, plan.cycles, mcycle_price)
        } else {
            lockable_worth(order, plan.cycles, self.gas_cost(order), mcycle_price)
        }
    }
}

/// How far pricing has come.
pub open spec fn progress(stage: PricingStage) -> int {
    match stage {
        PricingStage::LockCheck => 0,
        PricingStage::Filters => 1,
        PricingStage::Clock { .. } => 2,
        PricingStage::StakeCap { .. } => 3,
        PricingStage::GasPrice { .. } => 4,
        PricingStage::LockGas { .. } => 5,
        PricingStage::FulfillGas { .. } => 6,
        PricingStage::SignerBalance { .. } => 7,
        PricingStage::ReservePrice { .. } => 8,
        PricingStage::PendingGas { .. } => 9,
        PricingStage::StakeBalance { .. } => 10,
        PricingStage::ImageUpload { .. } => 11,
        PricingStage::InputUpload { .. } => 12,
        PricingStage::CycleConfig { .. } => 13,
        PricingStage::Preflight { .. } => 14,
        PricingStage::Evaluation { .. } => 15,
    }
}

/// What an order comes to when its questions get these answers, from a question
/// on.
pub open spec fn pricing_from(
    picker: OrderPicker,
    order: OrderRequest,
    answers: PricingAnswers,
    stage: PricingStage,
) -> PricingStepView
    decreases 16 - progress(stage),
{
    match next_step(picker, order, stage, answers.to(stage)) {
        PricingStepView::Next(next) => if progress(next) > progress(stage) {
            pricing_from(picker, order_after(order, stage, answers.to(stage)), answers, next)
        } else {
            PricingStepView::Next(next)
        },
        end => end,
    }
}

/// What an order comes to when its questions get these answers.
pub open spec fn pricing(
    picker: OrderPicker,
    order: OrderRequest,
    answers: PricingAnswers,
) -> PricingStepView {
    pricing_from(picker, order, answers, OrderPicker::first_stage(order))
}

/// Everything that speaks for taking on an order.
pub open spec fn acceptable(
    picker: OrderPicker,
    order: OrderRequest,
    answers: PricingAnswers,
) -> bool {
    let client = order.request.client_address;
    let offer = order.request.offer;
    let gas_cost = answers.gas_cost(order);
    let max_stake = parsed_ether(answers.stake_cap.max_stake@);
    let cycle_price = configured_price(picker, answers.cycle_config, order.lock_expired());
    let plan = answers.plan(order, cycle_price->Ok_0);
    let price = configured_price(picker, answers.evaluation_config, order.lock_expired());
    // Nobody has locked it, and it comes from an accepted client.
    &&& order.fulfillment_type == FulfillmentType::LockAndFulfill ==> !answers.locked
    &&& answers.filters.allows(client)
    &&& !answers.filters.denies(client)
    &&& order.request.selector_supported
    // There is time.
    &&& answers.now + answers.filters.min_deadline < order.expiration()
    // Its stake is allowed, and is there.
    &&& max_stake is Ok
    &&& !order.lock_expired() ==> offer.lock_stake@ <= max_stake->Ok_0
    &&& !order.lock_expired() ==> offer.lock_stake@ <= sat_sub(
        answers.stake_balance@,
        answers.pending_stake@,
    )
    // Its gas is paid for, and is there.
    &&& !order.lock_expired() ==> gas_cost <= offer.max_price@
    &&& gas_cost <= sat_sub(answers.balance@, answers.gas_reserved())
    // Enough of it may be run, it ends within that and prints what it should.
    &&& cycle_price is Ok
    &&& plan.limit >= MIN_RUN_CYCLES
    &&& !answers.runs_over
    &&& journal_reason(answers.journal, answers.evaluation_config.max_journal_bytes) is None
    // It pays for its cycles.
    &&& price is Ok
    &&& answers.worth(order, plan, price->Ok_0)
}

/// What an order that is taken on comes to.
pub open spec fn accepted_outcome(
    picker: OrderPicker,
    order: OrderRequest,
    answers: PricingAnswers,
) -> OrderPricingOutcome {
    let offer = order.request.offer;
    let cycle_price = configured_price(picker, answers.cycle_config, order.lock_expired());
    let total_cycles = answers.plan(order, cycle_price->Ok_0).cycles;
    if order.lock_expired() {
        OrderPricingOutcome::ProveAfterLockExpire {
            total_cycles,
            lock_expire_timestamp_secs: offer.lock_expiration() as u64,
            expiry_secs: offer.order_expiration() as u64,
        }
    } else {
        OrderPricingOutcome::Lock {
            total_cycles,
            target_timestamp_secs: 0,
            expiry_secs: offer.lock_expiration() as u64,
        }
    }
}

/// From the first upload on, an order is taken on if and only if enough of it
/// may be run, it prints what it should and pays for its cycles.
proof fn lemma_pricing_from_uploads(
    picker: OrderPicker,
    order: OrderRequest,
    answers: PricingAnswers,
)
    requires
        answers.bill(order).amount() == answers.gas_cost(order),
    ensures
        ({
            let bill = answers.bill(order);
            let seconds_left = answers.seconds_left(order) as u64;
            let uploads = PricingStage::ImageUpload { seconds_left, bill };
            let end = pricing_from(picker, order, answers, uploads);
            let cycle_price = configured_price(picker, answers.cycle_config, order.lock_expired());
            let plan = answers.plan(order, cycle_price->Ok_0);
            let reason = answers.run_reason(order, cycle_price->Ok_0);
            let price = configured_price(picker, answers.evaluation_config, order.lock_expired());
            end == if cycle_price is Err {
                PricingStepView::Fail(price_error(cycle_price->Err_0))
            } else if reason is Some {
                PricingStepView::Skip(reason->0)
            } else if price is Err {
                PricingStepView::Fail(price_error(price->Err_0))
            } else if !answers.worth(order, plan, price->Ok_0) {
                PricingStepView::Skip(SkipReason::Underpriced)
            } else {
                PricingStepView::Done(accepted_outcome(picker, order, answers))
            }
        }),
{
    let bill = answers.bill(order);
    let seconds_left = answers.seconds_left(order) as u64;
    let image = PricingStage::ImageUpload { seconds_left, bill };
    let input = PricingStage::InputUpload { seconds_left, bill, image_id: answers.image_id };
    let cycle = PricingStage::CycleConfig { seconds_left, bill };
    let uploaded = order_after(order, input, answers.to(input));
    assert(pricing_from(picker, order, answers, image) == pricing_from(
        picker,
        order,
        answers,
        input,
    ));
    assert(pricing_from(picker, order, answers, input) == pricing_from(
        picker,
        uploaded,
        answers,
        cycle,
    ));
    let cycle_price = configured_price(picker, answers.cycle_config, order.lock_expired());
    if cycle_price is Ok {
        let plan = answers.plan(order, cycle_price->Ok_0);
        let cycles = plan.cycles;
        let run = PricingStage::Preflight { bill, cycles, limit: plan.limit };
        let last = PricingStage::Evaluation { bill, cycles, journal: answers.journal };
        assert(plan == answers.plan(uploaded, cycle_price->Ok_0));
        if run_reason(plan) is None {
            assert(pricing_from(picker, uploaded, answers, cycle) == pricing_from(
                picker,
                uploaded,
                answers,
                run,
            ));
            if !answers.runs_over {
                assert(pricing_from(picker, uploaded, answers, run) == pricing_from(
                    picker,
                    uploaded,
                    answers,
                    last,
                ));
            }
        }
    }
}

/// From the gas price on, an order that can be afforded goes on to its uploads,
/// and every other is skipped.
proof fn lemma_pricing_from_gas_price(
    picker: OrderPicker,
    order: OrderRequest,
    answers: PricingAnswers,
)
    requires
        answers.gas_fits(order),
    ensures
        ({
            let bill = answers.bill(order);
            let seconds_left = answers.seconds_left(order) as u64;
            let end = pricing_from(picker, order, answers, PricingStage::GasPrice { seconds_left });
            let uploads = PricingStage::ImageUpload { seconds_left, bill };
            let reason = answers.funds_reason(order);
            &&& bill.amount() == answers.gas_cost(order)
            &&& reason is None ==> end == pricing_from(picker, order, answers, uploads)
            &&& reason is Some ==> end == PricingStepView::Skip(reason->0)
        }),
{
    let gas_price = answers.gas_price;
    let seconds_left = answers.seconds_left(order) as u64;
    let first = PricingStage::GasPrice { seconds_left };
    let lock_gas: u64 = if order.lock_expired() {
        0
    } else {
        answers.lock_gas
    };
    let fulfill = PricingStage::FulfillGas { seconds_left, gas_price, lock_gas };
    if !order.lock_expired() {
        let lock = PricingStage::LockGas { seconds_left, gas_price };
        assert(pricing_from(picker, order, answers, first) == pricing_from(
            picker,
            order,
            answers,
            lock,
        ));
        assert(pricing_from(picker, order, answers, lock) == pricing_from(
            picker,
            order,
            answers,
            fulfill,
        ));
    }
    assert(pricing_from(picker, order, answers, first) == pricing_from(
        picker,
        order,
        answers,
        fulfill,
    ));
    let bill = answers.bill(order);
    let signer = PricingStage::SignerBalance { seconds_left, bill };
    let balance = answers.balance;
    let reserve = PricingStage::ReservePrice { seconds_left, bill, balance };
    let pending = PricingStage::PendingGas {
        seconds_left,
        bill,
        balance,
        gas_price: answers.reserve_price,
    };
    let funds = GasFunds {
        balance,
        gas_price: answers.reserve_price,
        lock_pending_gas: total_gas(answers.pending_lock_gas@) as u64,
        fulfill_pending_gas: total_gas(answers.pending_fulfill_gas@) as u64,
    };
    let stake = PricingStage::StakeBalance { seconds_left, bill, funds };
    assert(funds.reserved() == answers.gas_reserved());
    assert(pricing_from(picker, order, answers, fulfill) == pricing_from(
        picker,
        order,
        answers,
        signer,
    ));
    assert(pricing_from(picker, order, answers, signer) == pricing_from(
        picker,
        order,
        answers,
        reserve,
    ));
    assert(pricing_from(picker, order, answers, reserve) == pricing_from(
        picker,
        order,
        answers,
        pending,
    ));
    assert(pricing_from(picker, order, answers, pending) == pricing_from(
        picker,
        order,
        answers,
        stake,
    ));
}

/// An order is taken on if and only if everything speaks for it; then pricing
/// comes to exactly one outcome.
pub proof fn law_taken_on_iff_acceptable(
    picker: OrderPicker,
    order: OrderRequest,
    answers: PricingAnswers,
)
    requires
        answers.gas_fits(order),
    ensures
        pricing(picker, order, answers) is Done <==> acceptable(picker, order, answers),
        acceptable(picker, order, answers) ==> pricing(picker, order, answers)
            == PricingStepView::Done(accepted_outcome(picker, order, answers)),
{
    law_first_reason_decides(picker, order, answers);
}

/// A refused order is answered with the first reason that speaks against it, in
/// this order: it is locked; its client or its kind; its deadline; the largest
/// stake; gas and stake at hand; what may be run of it; its journal; its price.
/// Nothing that comes later has a say. A configured amount that is none fails
/// pricing where it is needed, and not before.
pub proof fn law_first_reason_decides(
    picker: OrderPicker,
    order: OrderRequest,
    answers: PricingAnswers,
)
    requires
        answers.gas_fits(order),
    ensures
        ({
            let end = pricing(picker, order, answers);
            let early = answers.early_reason(order);
            let max_stake = parsed_ether(answers.stake_cap.max_stake@);
            let cap = stake_cap_reason(order, max_stake->Ok_0);
            let funds = answers.funds_reason(order);
            let cycle_price = configured_price(picker, answers.cycle_config, order.lock_expired());
            let run = answers.run_reason(order, cycle_price->Ok_0);
            let price = configured_price(picker, answers.evaluation_config, order.lock_expired());
            end == if early is Some {
                PricingStepView::Skip(early->0)
            } else if max_stake is Err {
                PricingStepView::Fail(
                    OrderPickerErrView::UnexpectedErr(ErrContext::ParseMaxStake, max_stake->Err_0),
                )
            } else if cap is Some {
                PricingStepView::Skip(cap->0)
            } else if funds is Some {
                PricingStepView::Skip(funds->0)
            } else if cycle_price is Err {
                PricingStepView::Fail(price_error(cycle_price->Err_0))
            } else if run is Some {
                PricingStepView::Skip(run->0)
            } else if price is Err {
                PricingStepView::Fail(price_error(price->Err_0))
            } else if !acceptable(picker, order, answers) {
                PricingStepView::Skip(SkipReason::Underpriced)
            } else {
                PricingStepView::Done(accepted_outcome(picker, order, answers))
            }
        }),
{
    lemma_pricing_from_gas_price(picker, order, answers);
    lemma_pricing_from_uploads(picker, order, answers);
    let seconds_left = answers.seconds_left(order) as u64;
    let clock = PricingStage::Clock { min_deadline: answers.filters.min_deadline };
    let cap_check = PricingStage::StakeCap { seconds_left };
    let from_filters = pricing_from(picker, order, answers, PricingStage::Filters);
    let from_clock = pricing_from(picker, order, answers, clock);
    let from_cap = pricing_from(picker, order, answers, cap_check);
    assert(filter_reason(order, answers.filters) is None ==> from_filters == from_clock);
    assert(deadline_reason(order, answers.now, answers.filters.min_deadline) is None ==> from_clock
        == from_cap);
}

/// Pricing comes to an end: whatever the answers, after no more questions than
/// there are stages the order is taken on, skipped or failed.
pub proof fn law_pricing_ends(picker: OrderPicker, order: OrderRequest, answers: PricingAnswers)
    requires
        answers.gas_fits(order),
    ensures
        pricing(picker, order, answers) !is Next,
{
    law_first_reason_decides(picker, order, answers);
}

/// With every question answered, pricing fails only for a configured amount
/// that is none.
pub proof fn law_answered_pricing_fails_only_on_config(
    picker: OrderPicker,
    order: OrderRequest,
    answers: PricingAnswers,
)
    requires
        answers.gas_fits(order),
        pricing(picker, order, answers) is Fail,
    ensures
        ({
            ||| parsed_ether(answers.stake_cap.max_stake@) is Err
            ||| configured_price(picker, answers.cycle_config, order.lock_expired()) is Err
            ||| configured_price(picker, answers.evaluation_config, order.lock_expired()) is Err
        }),
{
    law_first_reason_decides(picker, order, answers);
}

/// `a / c` reaches `p` if and only if `a` reaches `p * c`.
pub(crate) proof fn lemma_quotient_reaches(a: nat, c: nat, p: nat)
    requires
        c > 0,
    ensures
        a / c >= p <==> a >= p * c,
{
    vstd::arithmetic::div_mod::lemma_fundamental_div_mod(a as int, c as int);
    let q = a / c;
    let rest = a % c;
    if q >= p {
        assert(a >= p * c) by (nonlinear_arith)
            requires
                a == c * q + rest,
                q >= p,
                rest >= 0,
                c > 0,
        ;
    } else {
        assert(a < p * c) by (nonlinear_arith)
            requires
                a == c * q + rest,
                q + 1 <= p,
                rest < c,
                c > 0,
        ;
    }
}

/// What is paid per unit reaches a price if and only if what is paid affords
/// that many units.
proof fn lemma_price_reached_iff_affordable(paid: nat, units: nat, price: nat)
    requires
        units > 0,
        price > 0,
    ensures
        paid / units >= price <==> paid / price >= units,
{
    lemma_quotient_reaches(paid, units, price);
    lemma_quotient_reaches(paid, price, units);
    assert(price * units == units * price) by (nonlinear_arith);
}

/// With its cycles estimated from its price, an order to be locked is worth
/// picking if and only if, once gas is paid, it affords at least
/// [`MIN_LOCKABLE_CYCLES`] at the configured price. No limit on cycles makes it
/// less worth picking.
pub proof fn law_lockable_worth_iff_affords_minimum(
    order: OrderRequest,
    gas_cost: nat,
    mcycle_price: nat,
    mcycle_limit: Option<u64>,
)
    ensures
        ({
            let max_price = order.request.offer.max_price@;
            let cycles = lockable_cycles(
                affordable_cycles(max_price, gas_cost, mcycle_price),
                mcycle_limit,
            );
            let paid = sat_mul(sat_sub(max_price, gas_cost), ONE_MILLION as nat);
            lockable_worth(order, cycles as u64, gas_cost, mcycle_price) <==> mcycle_price == 0
                || paid / mcycle_price >= MIN_LOCKABLE_CYCLES
        }),
{
    let max_price = order.request.offer.max_price@;
    let affordable = affordable_cycles(max_price, gas_cost, mcycle_price);
    let cycles = lockable_cycles(affordable, mcycle_limit);
    let paid = sat_mul(sat_sub(max_price, gas_cost), ONE_MILLION as nat);
    assert(MIN_LOCKABLE_CYCLES <= cycles <= u64::MAX);
    if mcycle_price > 0 {
        let exact = paid / mcycle_price;
        lemma_price_reached_iff_affordable(paid, cycles, mcycle_price);
        if gas_cost >= max_price {
            assert(sat_sub(max_price, gas_cost) * (ONE_MILLION as nat) == 0) by (nonlinear_arith)
                requires
                    sat_sub(max_price, gas_cost) == 0,
            ;
            vstd::arithmetic::div_mod::lemma_div_basics(mcycle_price as int);
            assert(exact == 0);
        } else if exact >= MIN_LOCKABLE_CYCLES {
            assert(affordable <= exact);
            assert(cycles <= exact);
        }
    }
}

/// Once its lock has expired, an order is worth picking if and only if its
/// reward affords [`LOCK_EXPIRED_CYCLES`] at the configured price.
pub proof fn law_lock_expired_worth_iff_affords_estimate(order: OrderRequest, mcycle_price: nat)
    ensures
        ({
            let paid = sat_mul(order.request.offer.stake_reward@, ONE_MILLION as nat);
            lock_expired_worth(order, LOCK_EXPIRED_CYCLES, mcycle_price) <==> mcycle_price == 0
                || paid / mcycle_price >= LOCK_EXPIRED_CYCLES
        }),
{
    let paid = sat_mul(order.request.offer.stake_reward@, ONE_MILLION as nat);
    if mcycle_price > 0 {
        lemma_price_reached_iff_affordable(paid, LOCK_EXPIRED_CYCLES as nat, mcycle_price);
    }
}

/// What is paid per million cycles does not fall when more is paid, for no more
/// cycles.
proof fn lemma_per_mcycle_grows(amount: nat, more: nat, cycles: nat, fewer: nat)
    requires
        amount <= more,
        0 < fewer <= cycles,
    ensures
        per_mcycle(amount, cycles) <= per_mcycle(more, fewer),
{
    vstd::arithmetic::mul::lemma_mul_inequality(amount as int, more as int, ONE_MILLION as int);
    let less_paid = sat_mul(amount, ONE_MILLION as nat);
    let more_paid = sat_mul(more, ONE_MILLION as nat);
    vstd::arithmetic::div_mod::lemma_div_is_ordered(
        less_paid as int,
        more_paid as int,
        cycles as int,
    );
    vstd::arithmetic::div_mod::lemma_div_is_ordered_by_denominator(
        more_paid as int,
        fewer as int,
        cycles as int,
    );
}

/// An order that is worth locking stays so on better terms: when it pays more,
/// takes less gas, needs fewer cycles or is held to a lower price.
pub proof fn law_better_terms_stay_worth_locking(
    order: OrderRequest,
    better: OrderRequest,
    cycles: u64,
    fewer_cycles: u64,
    gas_cost: nat,
    less_gas_cost: nat,
    mcycle_price: nat,
    lower_price: nat,
)
    requires
        order.request.offer.max_price@ <= better.request.offer.max_price@,
        0 < fewer_cycles <= cycles,
        less_gas_cost <= gas_cost,
        lower_price <= mcycle_price,
        lockable_worth(order, cycles, gas_cost, mcycle_price),
    ensures
        lockable_worth(better, fewer_cycles, less_gas_cost, lower_price),
{
    lemma_per_mcycle_grows(
        sat_sub(order.request.offer.max_price@, gas_cost),
        sat_sub(better.request.offer.max_price@, less_gas_cost),
        cycles as nat,
        fewer_cycles as nat,
    );
}

/// An order that is worth proving after another prover's lock stays so on better
/// terms: when its reward is higher, it needs fewer cycles or is held to a lower
/// price.
pub proof fn law_better_terms_stay_worth_proving(
    order: OrderRequest,
    better: OrderRequest,
    cycles: u64,
    fewer_cycles: u64,
    mcycle_price: nat,
    lower_price: nat,
)
    requires
        order.request.offer.stake_reward@ <= better.request.offer.stake_reward@,
        0 < fewer_cycles <= cycles,
        lower_price <= mcycle_price,
        lock_expired_worth(order, cycles, mcycle_price),
    ensures
        lock_expired_worth(better, fewer_cycles, lower_price),
{
    lemma_per_mcycle_grows(
        order.request.offer.stake_reward@,
        better.request.offer.stake_reward@,
        cycles as nat,
        fewer_cycles as nat,
    );
}

/// The questions that pricing asks, from one on.
pub open spec fn questions_from(
    picker: OrderPicker,
    order: OrderRequest,
    answers: PricingAnswers,
    stage: PricingStage,
) -> Seq<PricingStage>
    decreases 16 - progress(stage),
{
    match next_step(picker, order, stage, answers.to(stage)) {
        PricingStepView::Next(next) => if progress(next) > progress(stage) {
            seq![stage] + questions_from(
                picker,
                order_after(order, stage, answers.to(stage)),
                answers,
                next,
            )
        } else {
            seq![stage]
        },
        _ => seq![stage],
    }
}

/// All questions that pricing asks about an order.
pub open spec fn questions(
    picker: OrderPicker,
    order: OrderRequest,
    answers: PricingAnswers,
) -> Seq<PricingStage> {
    questions_from(picker, order, answers, OrderPicker::first_stage(order))
}

/// Where pricing leaves an order, from a question on.
pub open spec fn order_priced_from(
    picker: OrderPicker,
    order: OrderRequest,
    answers: PricingAnswers,
    stage: PricingStage,
) -> OrderRequest
    decreases 16 - progress(stage),
{
    let after = order_after(order, stage, answers.to(stage));
    match next_step(picker, order, stage, answers.to(stage)) {
        PricingStepView::Next(next) => if progress(next) > progress(stage) {
            order_priced_from(picker, after, answers, next)
        } else {
            after
        },
        _ => after,
    }
}

/// Where pricing leaves an order.
pub open spec fn order_priced(
    picker: OrderPicker,
    order: OrderRequest,
    answers: PricingAnswers,
) -> OrderRequest {
    order_priced_from(picker, order, answers, OrderPicker::first_stage(order))
}

/// A limit on the cycles to run is capped: by what the order is taken to need;
/// where the proving rate is configured, by what can be proven before its
/// deadline; and once its lock has expired, by what its reward pays for.
pub open spec fn capped(
    picker: OrderPicker,
    order: OrderRequest,
    answers: PricingAnswers,
    cycles: u64,
    limit: u64,
) -> bool {
    let config = answers.cycle_config;
    let price = configured_price(picker, config, order.lock_expired());
    &&& MIN_RUN_CYCLES <= limit <= cycles
    &&& answers.seconds_left(order) > 0
    &&& config.peak_prove_khz matches Some(khz) ==> limit <= max_cycles_for_time(
        khz,
        answers.seconds_left(order) as u64,
    )
    &&& order.lock_expired() ==> {
        &&& cycles == LOCK_EXPIRED_CYCLES
        &&& price is Ok
        &&& limit <= rewarded_cycles(order.request.offer.stake_reward@, price->Ok_0)
    }
}

/// What a question remembers is what was answered.
spec fn remembers(
    picker: OrderPicker,
    stage: PricingStage,
    order: OrderRequest,
    answers: PricingAnswers,
) -> bool {
    let time = answers.seconds_left(order) as u64;
    let uploaded = order.image_id == Some(answers.image_id) && order.input_id == Some(
        answers.input_id,
    );
    &&& progress(stage) > 2 ==> answers.seconds_left(order) > 0
    &&& match stage {
        PricingStage::LockCheck | PricingStage::Filters | PricingStage::Clock { .. } => true,
        PricingStage::StakeCap { seconds_left } => seconds_left == time,
        PricingStage::GasPrice { seconds_left } => seconds_left == time,
        PricingStage::LockGas { seconds_left, .. } => seconds_left == time,
        PricingStage::FulfillGas { seconds_left, .. } => seconds_left == time,
        PricingStage::SignerBalance { seconds_left, .. } => seconds_left == time,
        PricingStage::ReservePrice { seconds_left, .. } => seconds_left == time,
        PricingStage::PendingGas { seconds_left, .. } => seconds_left == time,
        PricingStage::StakeBalance { seconds_left, .. } => seconds_left == time,
        PricingStage::ImageUpload { seconds_left, .. } => seconds_left == time,
        PricingStage::InputUpload { seconds_left, image_id, .. } => {
            seconds_left == time && image_id == answers.image_id
        },
        PricingStage::CycleConfig { seconds_left, .. } => seconds_left == time && uploaded,
        PricingStage::Preflight { cycles, limit, .. } => uploaded && capped(
            picker,
            order,
            answers,
            cycles,
            limit,
        ),
        PricingStage::Evaluation { .. } => uploaded,
    }
}

/// An order that differs from another in its uploads at most.
pub open spec fn same_but_uploads(order: OrderRequest, other: OrderRequest) -> bool {
    order == OrderRequest { image_id: order.image_id, input_id: order.input_id, ..other }
}

/// Each question remembers what was answered to those before it.
proof fn lemma_next_remembers(
    picker: OrderPicker,
    order: OrderRequest,
    answers: PricingAnswers,
    stage: PricingStage,
)
    requires
        remembers(picker, stage, order, answers),
    ensures
        ({
            let after = order_after(order, stage, answers.to(stage));
            let step = next_step(picker, order, stage, answers.to(stage));
            &&& same_but_uploads(after, order)
            &&& step matches PricingStepView::Next(next) ==> {
                &&& remembers(picker, next, after, answers)
                &&& progress(stage) < progress(next)
                &&& progress(stage) < 14 ==> progress(next) <= 14
            }
            &&& step is Done ==> stage is Evaluation && step->Done_0 !is Skip
        }),
{
}

/// What holds of all questions, and of the order, from a question on.
proof fn lemma_run(
    picker: OrderPicker,
    order: OrderRequest,
    answers: PricingAnswers,
    stage: PricingStage,
)
    requires
        remembers(picker, stage, order, answers),
    ensures
        ({
            let asked = questions_from(picker, order, answers, stage);
            let left = order_priced_from(picker, order, answers, stage);
            let end = pricing_from(picker, order, answers, stage);
            &&& forall|i: int|
                0 <= i < asked.len() ==> (#[trigger] asked[i] matches PricingStage::Preflight {
                    cycles,
                    limit,
                    ..
                } ==> capped(picker, order, answers, cycles, limit))
            &&& end is Done && progress(stage) <= 14 ==> exists|i: int|
                0 <= i < asked.len() && #[trigger] asked[i] is Preflight
            &&& same_but_uploads(left, order)
            &&& end is Done ==> {
                &&& end->Done_0 !is Skip
                &&& left.image_id == Some(answers.image_id)
                &&& left.input_id == Some(answers.input_id)
            }
        }),
    decreases 16 - progress(stage),
{
    lemma_next_remembers(picker, order, answers, stage);
    let asked = questions_from(picker, order, answers, stage);
    let after = order_after(order, stage, answers.to(stage));
    match next_step(picker, order, stage, answers.to(stage)) {
        PricingStepView::Next(next) => {
            lemma_run(picker, after, answers, next);
            let rest = questions_from(picker, after, answers, next);
            assert(asked =~= seq![stage] + rest);
            assert forall|i: int| 0 <= i < asked.len() implies (
            #[trigger] asked[i] matches PricingStage::Preflight { cycles, limit, .. } ==> capped(
                picker,
                order,
                answers,
                cycles,
                limit,
            )) by {
                if i > 0 {
                    assert(asked[i] == rest[i - 1]);
                } else {
                    assert(asked[0] == stage);
                }
            }
            if pricing_from(picker, order, answers, stage) is Done && progress(stage) <= 14 {
                if stage is Preflight {
                    assert(asked[0] is Preflight);
                } else {
                    let k = choose|k: int| 0 <= k < rest.len() && #[trigger] rest[k] is Preflight;
                    assert(asked[k + 1] == rest[k]);
                }
            }
        },
        _ => {
            assert(asked =~= seq![stage]);
        },
    }
}

/// No more cycles of an order's program are run ahead of proving than the order
/// is taken to need, nor, where the proving rate is configured, than can be
/// proven before its deadline, nor, once its lock has expired, than its reward
/// pays for. No order is taken on without that question.
pub proof fn law_cycles_run_are_capped(
    picker: OrderPicker,
    order: OrderRequest,
    answers: PricingAnswers,
)
    requires
        order.request.offer.deadlines_fit(),
    ensures
        ({
            let asked = questions(picker, order, answers);
            &&& forall|i: int|
                0 <= i < asked.len() ==> (#[trigger] asked[i] matches PricingStage::Preflight {
                    cycles,
                    limit,
                    ..
                } ==> capped(picker, order, answers, cycles, limit))
            &&& pricing(picker, order, answers) is Done ==> exists|i: int|
                0 <= i < asked.len() && #[trigger] asked[i] is Preflight
        }),
{
    lemma_run(picker, order, answers, OrderPicker::first_stage(order));
}

/// Once its lock has expired, an order is run only as far as its reward pays: at
/// the configured price, the cycles that may be run cost no more than the reward.
pub proof fn law_reward_pays_for_the_run(
    picker: OrderPicker,
    order: OrderRequest,
    answers: PricingAnswers,
    cycles: u64,
    limit: u64,
)
    requires
        order.lock_expired(),
        capped(picker, order, answers, cycles, limit),
    ensures
        ({
            let reward = order.request.offer.stake_reward@;
            let price = configured_price(picker, answers.cycle_config, true)->Ok_0;
            &&& limit * price <= reward * ONE_MILLION
            &&& limit <= affordable_cycles(reward, 0, price)
        }),
{
    let reward = order.request.offer.stake_reward@;
    let price = configured_price(picker, answers.cycle_config, true)->Ok_0;
    let paid = sat_mul(reward, ONE_MILLION as nat);
    if price > 0 {
        lemma_quotient_reaches(paid, price, limit as nat);
    } else {
        assert(limit * price == 0) by (nonlinear_arith)
            requires
                price == 0,
        ;
    }
}

/// An order that is taken on knows where both its uploads are, and what pricing
/// found. Nothing else about it has changed.
pub proof fn law_taken_on_order_knows_its_uploads(
    picker: OrderPicker,
    order: OrderRequest,
    answers: PricingAnswers,
)
    ensures
        ({
            let end = pricing(picker, order, answers);
            let left = order_priced(picker, order, answers);
            let updated = order_updated(left, end.result_view());
            &&& same_but_uploads(left, order)
            &&& end is Done ==> {
                &&& updated.image_id == Some(answers.image_id)
                &&& updated.input_id == Some(answers.input_id)
                &&& updated.total_cycles is Some
                &&& updated.target_timestamp is Some
                &&& updated.expire_timestamp is Some
                &&& updated.id == order.id
                &&& updated.request == order.request
                &&& updated.fulfillment_type == order.fulfillment_type
            }
        }),
{
    lemma_run(picker, order, answers, OrderPicker::first_stage(order));
}

/// An order is only ever locked if it is to be locked, and only ever left for
/// after another prover's lock if there is one. A lock is tried at once and
/// lasts until the lock's deadline; proving after a lock waits for that
/// deadline and lasts until the request's.
pub proof fn law_outcome_follows_fulfillment_type(
    picker: OrderPicker,
    order: OrderRequest,
    answers: PricingAnswers,
)
    requires
        answers.gas_fits(order),
        order.request.offer.deadlines_fit(),
        pricing(picker, order, answers) is Done,
    ensures
        match pricing(picker, order, answers)->Done_0 {
            OrderPricingOutcome::Lock { total_cycles, target_timestamp_secs, expiry_secs } => {
                &&& order.fulfillment_type == FulfillmentType::LockAndFulfill
                &&& total_cycles >= MIN_LOCKABLE_CYCLES
                &&& target_timestamp_secs == 0
                &&& expiry_secs == order.request.offer.lock_expiration()
            },
            OrderPricingOutcome::ProveAfterLockExpire {
                total_cycles,
                lock_expire_timestamp_secs,
                expiry_secs,
            } => {
                &&& order.fulfillment_type == FulfillmentType::FulfillAfterLockExpire
                &&& total_cycles == LOCK_EXPIRED_CYCLES
                &&& lock_expire_timestamp_secs == order.request.offer.lock_expiration()
                &&& expiry_secs == order.request.offer.order_expiration()
            },
            OrderPricingOutcome::Skip => false,
        },
{
    law_taken_on_iff_acceptable(picker, order, answers);
}

/// Stake is never overcommitted: an order that is locked takes no more than the
/// largest stake that is allowed, and no more than is left of the balance after
/// orders that are yet to be locked.
pub proof fn law_stake_is_never_overcommitted(
    picker: OrderPicker,
    order: OrderRequest,
    answers: PricingAnswers,
)
    requires
        answers.gas_fits(order),
        pricing(picker, order, answers) is Done,
        order.fulfillment_type == FulfillmentType::LockAndFulfill,
    ensures
        order.request.offer.lock_stake@ <= parsed_ether(answers.stake_cap.max_stake@)->Ok_0,
        order.request.offer.lock_stake@ > 0 ==> order.request.offer.lock_stake@
            + answers.pending_stake@ <= answers.stake_balance@,
{
    law_taken_on_iff_acceptable(picker, order, answers);
}

/// Gas is never overcommitted: the gas of an order that is taken on and the gas
/// reserved to lock and fulfill pending orders are both covered by the balance, and an order
/// that is locked pays for its gas.
pub proof fn law_gas_is_never_overcommitted(
    picker: OrderPicker,
    order: OrderRequest,
    answers: PricingAnswers,
)
    requires
        answers.gas_fits(order),
        pricing(picker, order, answers) is Done,
    ensures
        answers.gas_cost(order) > 0 ==> answers.gas_cost(order) + answers.gas_reserved()
            <= answers.balance@,
        order.fulfillment_type == FulfillmentType::LockAndFulfill ==> answers.gas_cost(order)
            <= order.request.offer.max_price@,
{
    law_taken_on_iff_acceptable(picker, order, answers);
}

/// A question that gets no answer ends pricing with that question's error, and
/// the order is put down as skipped, otherwise unchanged.
pub proof fn law_unanswered_order_is_skipped(
    picker: OrderPicker,
    order: OrderRequest,
    stage: PricingStage,
    causes: Vec<String>,
)
    ensures
        ({
            let event = PricingEvent::Failed(causes);
            let end = next_step(picker, order, stage, event);
            &&& end == PricingStepView::Fail(failure(stage, causes.deep_view()))
            &&& order_after(order, stage, event) == order
            &&& update_after(end.result_view()) == OrderUpdate::InsertSkipped
            &&& order_updated(order, end.result_view()) == order
        }),
{
}

/// Of the orders whose pricing ends, exactly those that are acceptable are sent
/// on; all others are put down as skipped, and the update writes nothing into
/// them.
pub proof fn law_sent_on_iff_acceptable(
    picker: OrderPicker,
    order: OrderRequest,
    answers: PricingAnswers,
)
    requires
        answers.gas_fits(order),
    ensures
        ({
            let result = pricing(picker, order, answers).result_view();
            let update = update_after(result);
            &&& update == OrderUpdate::SendPriced <==> acceptable(picker, order, answers)
            &&& update == OrderUpdate::InsertSkipped <==> !acceptable(picker, order, answers)
            &&& update == OrderUpdate::InsertSkipped ==> order_updated(order, result) == order
        }),
{
    law_first_reason_decides(picker, order, answers);
}

/// A pricing that is cancelled changes nothing.
pub proof fn law_cancelled_pricing_changes_nothing(order: OrderRequest)
    ensures
        update_after::<OrderPickerErr>(None) == OrderUpdate::Leave,
        order_updated::<OrderPickerErr>(order, None) == order,
{
}

/// Gas estimates stack: two sets of pending orders take what each takes.
pub proof fn law_gas_estimates_stack(some: Seq<u64>, more: Seq<u64>)
    ensures
        total_gas(some + more) == total_gas(some) + total_gas(more),
    decreases more.len(),
{
    if more.len() == 0 {
        assert(some + more =~= some);
    } else {
        law_gas_estimates_stack(some, more.drop_last());
        assert((some + more).drop_last() =~= some + more.drop_last());
        assert((some + more).last() == more.last());
    }
}

/// More time, or a higher rate, never lowers the number of cycles that can be
/// proven.
pub proof fn law_more_time_proves_no_fewer_cycles(khz: u64, secs: u64, more_khz: u64, more_secs: u64)
    requires
        khz <= more_khz,
        secs <= more_secs,
    ensures
        max_cycles_for_time(khz, secs) <= max_cycles_for_time(more_khz, more_secs),
{
    assert(khz * 1_000 * secs <= more_khz * 1_000 * more_secs) by (nonlinear_arith)
        requires
            0 <= khz <= more_khz,
            0 <= secs <= more_secs,
    ;
}

/// The ids that are started when these are selected one after another, by a
/// monitor that remembers `known` and every id that it starts.
pub open spec fn started(selected: Seq<Seq<char>>, known: Set<Seq<char>>) -> Seq<Seq<char>>
    decreases selected.len(),
{
    if selected.len() == 0 {
        Seq::empty()
    } else {
        let id = selected.first();
        match admission(known.contains(id)) {
            Admission::Duplicate => started(selected.drop_first(), known),
            Admission::Start => seq![id] + started(selected.drop_first(), known.insert(id)),
        }
    }
}

/// While ids are remembered, no order is priced twice, and every order whose id
/// was not known is priced.
pub proof fn law_no_order_is_priced_twice(selected: Seq<Seq<char>>, known: Set<Seq<char>>)
    ensures
        started(selected, known).no_duplicates(),
        forall|id: Seq<char>| #[trigger]
            started(selected, known).contains(id) <==> selected.contains(id) && !known.contains(id),
    decreases selected.len(),
{
    let result = started(selected, known);
    if selected.len() > 0 {
        let first = selected.first();
        let rest = selected.drop_first();
        assert(selected =~= seq![first] + rest);
        assert forall|id: Seq<char>| selected.contains(id) <==> id == first || rest.contains(
            id,
        ) by {
            if rest.contains(id) {
                let k = rest.index_of(id);
                assert(selected[k + 1] == id);
            }
            if selected.contains(id) && id != first {
                let k = selected.index_of(id);
                assert(rest[k - 1] == id);
            }
            assert(selected[0] == first);
        }
        if known.contains(first) {
            law_no_order_is_priced_twice(rest, known);
        } else {
            let tail = started(rest, known.insert(first));
            law_no_order_is_priced_twice(rest, known.insert(first));
            assert(result =~= seq![first] + tail);
            assert(!tail.contains(first));
            assert forall|id: Seq<char>| result.contains(id) <==> id == first || tail.contains(
                id,
            ) by {
                if tail.contains(id) {
                    let k = tail.index_of(id);
                    assert(result[k + 1] == id);
                }
                if result.contains(id) && id != first {
                    let k = result.index_of(id);
                    assert(tail[k - 1] == id);
                }
                assert(result[0] == first);
            }
            assert(result.no_duplicates()) by {
                assert forall|i: int, j: int|
                    0 <= i < result.len() && 0 <= j < result.len() && i != j implies result[i]
                    != result[j] by {
                    if i > 0 && j > 0 {
                        assert(tail[i - 1] != tail[j - 1]);
                    } else if i == 0 {
                        assert(tail[j - 1] == result[j]);
                        assert(tail.contains(result[j]));
                    } else {
                        assert(tail[i - 1] == result[i]);
                        assert(tail.contains(result[i]));
                    }
                }
            }
        }
    }
}

/// Where a round of dispatching leaves the monitor.
pub struct Dispatched {
    /// The orders that go on waiting.
    pub pending: Seq<OrderRequest>,
    pub running: int,
    /// The ids that are remembered.
    pub known: Set<Seq<char>>,
    /// The orders that were started, in that order.
    pub started: Seq<OrderRequest>,
}

/// Starts waiting orders while there are any and there is capacity, one after
/// another as `select` picks them.
pub open spec fn dispatch(
    pending: Seq<OrderRequest>,
    running: int,
    capacity: int,
    known: Set<Seq<char>>,
    select: spec_fn(Seq<OrderRequest>) -> int,
) -> Dispatched
    decreases pending.len(),
{
    let selected = select(pending);
    if pending.len() > 0 && running < capacity && 0 <= selected < pending.len() {
        let order = pending[selected];
        let rest = pending.remove(selected);
        match admission(known.contains(order.id@)) {
            Admission::Duplicate => dispatch(rest, running, capacity, known, select),
            Admission::Start => {
                let after = dispatch(
                    rest,
                    running + 1,
                    capacity,
                    known.insert(order.id@),
                    select,
                );
                Dispatched { started: seq![order] + after.started, ..after }
            },
        }
    } else {
        Dispatched { pending, running, known, started: Seq::empty() }
    }
}

/// Dispatching never goes beyond the capacity, and stops only when no order
/// waits or the capacity is used up. Every order that is started counts as
/// running, was not known before, and is remembered.
pub proof fn law_dispatch_fills_the_capacity(
    pending: Seq<OrderRequest>,
    running: int,
    capacity: int,
    known: Set<Seq<char>>,
    select: spec_fn(Seq<OrderRequest>) -> int,
)
    requires
        forall|s: Seq<OrderRequest>| s.len() > 0 ==> 0 <= #[trigger] select(s) < s.len(),
    ensures
        ({
            let after = dispatch(pending, running, capacity, known, select);
            &&& after.pending.len() == 0 || after.running >= capacity
            &&& after.running == running + after.started.len()
            &&& after.running <= capacity || after.running == running
            &&& forall|i: int|
                0 <= i < after.started.len() ==> !known.contains(#[trigger] after.started[i].id@)
                    && after.known.contains(after.started[i].id@)
            &&& known.subset_of(after.known)
        }),
    decreases pending.len(),
{
    let selected = select(pending);
    let after = dispatch(pending, running, capacity, known, select);
    if pending.len() > 0 && running < capacity {
        let order = pending[selected];
        let rest = pending.remove(selected);
        if known.contains(order.id@) {
            law_dispatch_fills_the_capacity(rest, running, capacity, known, select);
        } else {
            let inner = dispatch(rest, running + 1, capacity, known.insert(order.id@), select);
            law_dispatch_fills_the_capacity(
                rest,
                running + 1,
                capacity,
                known.insert(order.id@),
                select,
            );
            assert(after.started =~= seq![order] + inner.started);
            assert forall|i: int| 0 <= i < after.started.len() implies !known.contains(
                #[trigger] after.started[i].id@,
            ) && after.known.contains(after.started[i].id@) by {
                if i > 0 {
                    assert(after.started[i] == inner.started[i - 1]);
                } else {
                    assert(after.started[0] == order);
                }
            }
        }
    }
}

/// Taking an order out of the queue loses no other order.
pub proof fn law_taking_an_order_keeps_the_others(pending: Seq<OrderRequest>, selected: int)
    requires
        0 <= selected < pending.len(),
    ensures
        pending.to_multiset() =~= pending.remove(selected).to_multiset().insert(pending[selected]),
{
    pending.to_multiset_ensures();
    vstd::seq_lib::to_multiset_remove(pending, selected);
}

/// Each kind of error has a code of its own.
pub proof fn law_error_codes_are_distinct(a: OrderPickerErr, b: OrderPickerErr)
    requires
        a.code_words() == b.code_words(),
    ensures
        a is FetchInputErr <==> b is FetchInputErr,
        a is FetchImageErr <==> b is FetchImageErr,
        a is GuestPanic <==> b is GuestPanic,
        a is RequestError <==> b is RequestError,
        a is RpcErr <==> b is RpcErr,
        a is UnexpectedErr <==> b is UnexpectedErr,
{
    reveal_strlit("[B-OP-001]");
    reveal_strlit("[B-OP-002]");
    reveal_strlit("[B-OP-003]");
    reveal_strlit("[B-OP-004]");
    reveal_strlit("[B-OP-005]");
    reveal_strlit("[B-OP-500]");
    assert("[B-OP-001]"@[8] == '1' && "[B-OP-001]"@[6] == '0');
    assert("[B-OP-002]"@[8] == '2' && "[B-OP-002]"@[6] == '0');
    assert("[B-OP-003]"@[8] == '3' && "[B-OP-003]"@[6] == '0');
    assert("[B-OP-004]"@[8] == '4' && "[B-OP-004]"@[6] == '0');
    assert("[B-OP-005]"@[8] == '5' && "[B-OP-005]"@[6] == '0');
    assert("[B-OP-500]"@[8] == '0' && "[B-OP-500]"@[6] == '5');
    assert(a.code_words()[6] == b.code_words()[6]);
    assert(a.code_words()[8] == b.code_words()[8]);
}

} // verus!
