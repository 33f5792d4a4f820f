//! Pricing an order, one question at a time.
//!
//! Pricing alternates between decisions and questions that only the outside
//! can answer: what the database, the chain, the prover and the configuration
//! say. [`PricingStage`] is the question that is open, [`PricingEvent`] its
//! answer, and [`OrderPicker::price_order`] decides what follows.

use vstd::prelude::*;

use crate::config::MarketConfig;
use crate::error::{ErrContext, OrderPickerErr, OrderPickerErrView};
use crate::evaluate::{
    configured_price, evaluation, limit_fits, price_readable, run_plan, synthetic_proof_result,
    RunPlan, MIN_RUN_CYCLES, ONE_MILLION,
};
use crate::gas::{pending_gas_fits, total_gas, GasBill};
use crate::order::{FulfillmentType, Journal, OrderRequest};
use crate::outcome::{OrderPricingOutcome, SkipReason};
use crate::picker::OrderPicker;
use crate::u256::{sat_sub, U256};
use crate::units::{is_readable, parse_ether, parsed_ether, readable, ETHER_DECIMALS};

verus! {

/// The gas tokens of the account: its balance, and what is reserved of it.
#[derive(Clone, Copy, Debug, PartialEq, Eq)]
pub struct GasFunds {
    pub balance: U256,
    /// Wei per unit of gas that is reserved.
    pub gas_price: u128,
    /// What locking all orders takes that are pending lock.
    pub lock_pending_gas: u64,
    /// What fulfilling all pending orders takes.
    pub fulfill_pending_gas: u64,
}

impl GasFunds {
    /// The gas that is reserved fits in 64 bits.
    pub open spec fn gas_fits(self) -> bool {
        self.lock_pending_gas + self.fulfill_pending_gas <= u64::MAX
    }

    /// The gas tokens that are reserved to lock and fulfill all pending orders.
    pub open spec fn reserved(self) -> nat {
        (self.gas_price * (self.lock_pending_gas + self.fulfill_pending_gas)) as nat
    }

    /// The gas tokens that are there.
    pub open spec fn available(self) -> nat {
        self.balance@
    }
}

/// The question that has to be answered for pricing to go on, with what earlier
/// answers have left to remember.
#[derive(Clone, Debug, PartialEq, Eq)]
pub enum PricingStage {
    /// Is the request locked?
    LockCheck,
    /// What is the configuration? Clients are held against it.
    Filters,
    /// What time is it?
    Clock { min_deadline: u64 },
    /// What is the configuration? The order's stake is held against it.
    StakeCap { seconds_left: u64 },
    /// What is the gas price?
    GasPrice { seconds_left: u64 },
    /// How much gas does locking the order take?
    LockGas { seconds_left: u64, gas_price: u128 },
    /// How much gas does fulfilling the order take?
    FulfillGas { seconds_left: u64, gas_price: u128, lock_gas: u64 },
    /// What is the balance of the account?
    SignerBalance { seconds_left: u64, bill: GasBill },
    /// What is the gas price, for what is reserved?
    ReservePrice { seconds_left: u64, bill: GasBill, balance: U256 },
    /// How much gas does locking each of the orders take that are pending lock,
    /// and how much does fulfilling each of the pending orders?
    PendingGas { seconds_left: u64, bill: GasBill, balance: U256, gas_price: u128 },
    /// What is the stake of the account, and what stake is yet to be locked?
    StakeBalance { seconds_left: u64, bill: GasBill, funds: GasFunds },
    /// Where does the prover keep the image, once uploaded?
    ImageUpload { seconds_left: u64, bill: GasBill },
    /// Where does the prover keep the input, once uploaded?
    InputUpload { seconds_left: u64, bill: GasBill, image_id: String },
    /// What is the configuration? The order's cycles are estimated and limited
    /// by it.
    CycleConfig { seconds_left: u64, bill: GasBill },
    /// What does the program print, if it is run ahead of proving? No more than
    /// `limit` cycles of it may be run.
    Preflight { bill: GasBill, cycles: u64, limit: u64 },
    /// What is the configuration? The order is evaluated by it.
    Evaluation { bill: GasBill, cycles: u64, journal: Option<Journal> },
}

/// An answer from outside.
#[derive(Clone, Debug, PartialEq, Eq)]
pub enum PricingEvent {
    RequestLocked(bool),
    Config(MarketConfig),
    Clock(u64),
    GasPrice(u128),
    Gas(u64),
    Balance(U256),
    /// The estimates to lock each order that is pending lock, and to fulfill
    /// each order that is pending lock or locked.
    PendingGas { lock: Vec<u64>, fulfill: Vec<u64> },
    StakeBalance { balance: U256, pending_stake: U256 },
    Uploaded(String),
    /// What the program printed; `None` where it is not run ahead of proving.
    Ran(Option<Journal>),
    /// Running the program takes more cycles than the limit.
    LimitExceeded,
    /// There is no answer, and this is why: a chain of causes, the outermost
    /// first.
    Failed(Vec<String>),
}

/// What follows an answer.
#[derive(Clone, Debug, PartialEq, Eq)]
pub enum PricingStep {
    /// Another question.
    Next(PricingStage),
    /// The order is not taken on.
    Skip(SkipReason),
    /// The order is taken on.
    Done(OrderPricingOutcome),
    /// The order cannot be priced.
    Fail(OrderPickerErr),
}

/// What follows an answer, as contracts speak of it.
pub enum PricingStepView {
    Next(PricingStage),
    Skip(SkipReason),
    Done(OrderPricingOutcome),
    Fail(OrderPickerErrView),
}

impl View for PricingStep {
    type V = PricingStepView;

    open spec fn view(&self) -> PricingStepView {
        match self {
            PricingStep::Next(stage) => PricingStepView::Next(*stage),
            PricingStep::Skip(reason) => PricingStepView::Skip(*reason),
            PricingStep::Done(outcome) => PricingStepView::Done(*outcome),
            PricingStep::Fail(error) => PricingStepView::Fail(error@),
        }
    }
}

/// Why the client or the kind of an order is refused, if it is.
pub open spec fn filter_reason(order: OrderRequest, config: MarketConfig) -> Option<SkipReason> {
    if !config.allows(order.request.client_address) {
        Some(SkipReason::NotAllowed)
    } else if config.denies(order.request.client_address) {
        Some(SkipReason::Denied)
    } else if !order.request.selector_supported {
        Some(SkipReason::UnsupportedSelector)
    } else {
        None
    }
}

/// Why an order is too late, if it is.
pub open spec fn deadline_reason(order: OrderRequest, now: u64, min_deadline: u64) -> Option<
    SkipReason,
> {
    if order.expiration() <= now {
        Some(SkipReason::Expired)
    } else if order.expiration() - now <= min_deadline {
        Some(SkipReason::DeadlineTooClose)
    } else {
        None
    }
}

/// Why an order's stake is out of bounds, if it is. A lock that has expired
/// takes no stake.
pub open spec fn stake_cap_reason(order: OrderRequest, max_stake: nat) -> Option<SkipReason> {
    if !order.lock_expired() && order.request.offer.lock_stake@ > max_stake {
        Some(SkipReason::StakeTooHigh)
    } else {
        None
    }
}

/// Why an order cannot be afforded, if it cannot. The reward of an order whose
/// lock has expired is in stake tokens, so its gas is not held against it. Gas
/// that is reserved for pending orders is not there for another.
pub open spec fn funds_reason(
    order: OrderRequest,
    gas_cost: nat,
    available_gas: nat,
    reserved_gas: nat,
    available_stake: nat,
) -> Option<SkipReason> {
    if gas_cost > order.request.offer.max_price@ && !order.lock_expired() {
        Some(SkipReason::GasExceedsMaxPrice)
    } else if gas_cost > sat_sub(available_gas, reserved_gas) {
        Some(SkipReason::InsufficientGas)
    } else if !order.lock_expired() && order.request.offer.lock_stake@ > available_stake {
        Some(SkipReason::InsufficientStake)
    } else {
        None
    }
}

/// Why an order is not run, if it is not.
pub open spec fn run_reason(plan: RunPlan) -> Option<SkipReason> {
    if plan.limit < MIN_RUN_CYCLES {
        Some(SkipReason::ExecLimitTooLow)
    } else {
        None
    }
}

/// Why a journal is refused, if there is one and it is.
pub open spec fn journal_reason(journal: Option<Journal>, max_bytes: usize) -> Option<SkipReason> {
    match journal {
        Some(printed) => if printed.bytes@.len() > max_bytes {
            Some(SkipReason::JournalTooLarge)
        } else if !printed.predicate_holds {
            Some(SkipReason::PredicateFailed)
        } else {
            None
        },
        None => None,
    }
}

/// The error for a question that got no answer.
pub open spec fn failure(stage: PricingStage, causes: Seq<Seq<char>>) -> OrderPickerErrView {
    match stage {
        PricingStage::LockCheck => OrderPickerErrView::UnexpectedErr(
            ErrContext::CheckRequestLocked,
            causes,
        ),
        PricingStage::Filters
        | PricingStage::StakeCap { .. }
        | PricingStage::CycleConfig { .. }
        | PricingStage::Evaluation { .. } => OrderPickerErrView::UnexpectedErr(
            ErrContext::ReadConfig,
            causes,
        ),
        PricingStage::GasPrice { .. }
        | PricingStage::ReservePrice { .. } => OrderPickerErrView::UnexpectedErr(
            ErrContext::GasPrice,
            causes,
        ),
        PricingStage::SignerBalance { .. } => OrderPickerErrView::RpcErr(causes),
        PricingStage::ImageUpload { .. } => OrderPickerErrView::FetchImageErr(causes),
        PricingStage::InputUpload { .. } => OrderPickerErrView::FetchInputErr(causes),
        PricingStage::Clock { .. }
        | PricingStage::LockGas { .. }
        | PricingStage::FulfillGas { .. }
        | PricingStage::PendingGas { .. }
        | PricingStage::StakeBalance { .. }
        | PricingStage::Preflight { .. } => OrderPickerErrView::UnexpectedErr(
            ErrContext::Unnamed,
            causes,
        ),
    }
}

/// Skips for a reason, or goes on with the next question.
pub open spec fn skip_or(reason: Option<SkipReason>, next: PricingStage) -> PricingStepView {
    match reason {
        Some(why) => PricingStepView::Skip(why),
        None => PricingStepView::Next(next),
    }
}

/// What follows the evaluation of an order.
pub open spec fn after_evaluation(
    evaluated: Result<OrderPricingOutcome, OrderPickerErrView>,
) -> PricingStepView {
    match evaluated {
        Ok(OrderPricingOutcome::Skip) => PricingStepView::Skip(SkipReason::Underpriced),
        Ok(outcome) => PricingStepView::Done(outcome),
        Err(error) => PricingStepView::Fail(error),
    }
}

/// What follows an answer. An answer to a question that is not open leaves the
/// open one as it is.
pub open spec fn next_step(
    picker: OrderPicker,
    order: OrderRequest,
    stage: PricingStage,
    event: PricingEvent,
) -> PricingStepView {
    match (stage, event) {
        (open_question, PricingEvent::Failed(causes)) => PricingStepView::Fail(
            failure(open_question, causes.deep_view()),
        ),
        (PricingStage::LockCheck, PricingEvent::RequestLocked(locked)) => skip_or(
            if locked {
                Some(SkipReason::AlreadyLocked)
            } else {
                None
            },
            PricingStage::Filters,
        ),
        (PricingStage::Filters, PricingEvent::Config(config)) => skip_or(
            filter_reason(order, config),
            PricingStage::Clock { min_deadline: config.min_deadline },
        ),
        (PricingStage::Clock { min_deadline }, PricingEvent::Clock(now)) => skip_or(
            deadline_reason(order, now, min_deadline),
            PricingStage::StakeCap { seconds_left: (order.expiration() - now) as u64 },
        ),
        (PricingStage::StakeCap { seconds_left }, PricingEvent::Config(config)) => {
            match parsed_ether(config.max_stake@) {
                Ok(max_stake) => skip_or(
                    stake_cap_reason(order, max_stake),
                    PricingStage::GasPrice { seconds_left },
                ),
                Err(causes) => PricingStepView::Fail(
                    OrderPickerErrView::UnexpectedErr(ErrContext::ParseMaxStake, causes),
                ),
            }
        },
        (PricingStage::GasPrice { seconds_left }, PricingEvent::GasPrice(gas_price)) => {
            PricingStepView::Next(
                if order.lock_expired() {
                    PricingStage::FulfillGas { seconds_left, gas_price, lock_gas: 0 }
                } else {
                    PricingStage::LockGas { seconds_left, gas_price }
                },
            )
        },
        (PricingStage::LockGas { seconds_left, gas_price }, PricingEvent::Gas(lock_gas)) => {
            PricingStepView::Next(PricingStage::FulfillGas { seconds_left, gas_price, lock_gas })
        },
        (
            PricingStage::FulfillGas { seconds_left, gas_price, lock_gas },
            PricingEvent::Gas(fulfill_gas),
        ) => PricingStepView::Next(
            PricingStage::SignerBalance {
                seconds_left,
                bill: GasBill { price: gas_price, gas: (lock_gas + fulfill_gas) as u64 },
            },
        ),
        (PricingStage::SignerBalance { seconds_left, bill }, PricingEvent::Balance(balance)) => {
            PricingStepView::Next(PricingStage::ReservePrice { seconds_left, bill, balance })
        },
        (
            PricingStage::ReservePrice { seconds_left, bill, balance },
            PricingEvent::GasPrice(gas_price),
        ) => PricingStepView::Next(
            PricingStage::PendingGas { seconds_left, bill, balance, gas_price },
        ),
        (
            PricingStage::PendingGas { seconds_left, bill, balance, gas_price },
            PricingEvent::PendingGas { lock, fulfill },
        ) => PricingStepView::Next(
            PricingStage::StakeBalance {
                seconds_left,
                bill,
                funds: GasFunds {
                    balance,
                    gas_price,
                    lock_pending_gas: total_gas(lock@) as u64,
                    fulfill_pending_gas: total_gas(fulfill@) as u64,
                },
            },
        ),
        (
            PricingStage::StakeBalance { seconds_left, bill, funds },
            PricingEvent::StakeBalance { balance, pending_stake },
        ) => skip_or(
            funds_reason(
                order,
                bill.amount(),
                funds.available(),
                funds.reserved(),
                sat_sub(balance@, pending_stake@),
            ),
            PricingStage::ImageUpload { seconds_left, bill },
        ),
        (PricingStage::ImageUpload { seconds_left, bill }, PricingEvent::Uploaded(image_id)) => {
            PricingStepView::Next(PricingStage::InputUpload { seconds_left, bill, image_id })
        },
        (
            PricingStage::InputUpload { seconds_left, bill, image_id },
            PricingEvent::Uploaded(input_id),
        ) => PricingStepView::Next(PricingStage::CycleConfig { seconds_left, bill }),
        (PricingStage::CycleConfig { seconds_left, bill }, PricingEvent::Config(config)) => {
            match run_plan(
                order,
                bill.amount(),
                config,
                seconds_left,
                configured_price(picker, config, order.lock_expired()),
            ) {
                Ok(plan) => skip_or(
                    run_reason(plan),
                    PricingStage::Preflight { bill, cycles: plan.cycles, limit: plan.limit },
                ),
                Err(error) => PricingStepView::Fail(error),
            }
        },
        (PricingStage::Preflight { .. }, PricingEvent::LimitExceeded) => PricingStepView::Skip(
            SkipReason::SessionLimitExceeded,
        ),
        (PricingStage::Preflight { bill, cycles, limit }, PricingEvent::Ran(journal)) => {
            PricingStepView::Next(PricingStage::Evaluation { bill, cycles, journal })
        },
        (PricingStage::Evaluation { bill, cycles, journal }, PricingEvent::Config(config)) => {
            match journal_reason(journal, config.max_journal_bytes) {
                Some(why) => PricingStepView::Skip(why),
                None => after_evaluation(
                    evaluation(
                        order,
                        cycles,
                        bill.amount(),
                        order.lock_expired(),
                        configured_price(picker, config, order.lock_expired()),
                    ),
                ),
            }
        },
        (open_question, _) => PricingStepView::Next(open_question),
    }
}

/// What an answer changes in the order: once both uploads are done, it knows
/// where they are.
pub open spec fn order_after(
    order: OrderRequest,
    stage: PricingStage,
    event: PricingEvent,
) -> OrderRequest {
    match (stage, event) {
        (PricingStage::InputUpload { image_id, .. }, PricingEvent::Uploaded(input_id)) => {
            OrderRequest { image_id: Some(image_id), input_id: Some(input_id), ..order }
        },
        _ => order,
    }
}

/// The numbers of an answer are in range: sums and deadlines fit in 64 bits, and
/// configured amounts can be read.
pub open spec fn in_range(
    picker: OrderPicker,
    order: OrderRequest,
    stage: PricingStage,
    event: PricingEvent,
) -> bool {
    match (stage, event) {
        (PricingStage::Clock { .. }, PricingEvent::Clock(_)) => order.request.offer.deadlines_fit(),
        (PricingStage::StakeCap { .. }, PricingEvent::Config(config)) => readable(
            config.max_stake@,
            ETHER_DECIMALS,
        ),
        (PricingStage::FulfillGas { lock_gas, .. }, PricingEvent::Gas(fulfill_gas)) => {
            lock_gas + fulfill_gas <= u64::MAX
        },
        (PricingStage::PendingGas { .. }, PricingEvent::PendingGas { lock, fulfill }) => {
            total_gas(lock@) + total_gas(fulfill@) <= u64::MAX
        },
        (PricingStage::CycleConfig { .. }, PricingEvent::Config(config)) => {
            &&& price_readable(picker, config, order.lock_expired())
            &&& order.lock_expired() || limit_fits(
                config.mcycle_limit_for(order.request.client_address),
            )
        },
        (PricingStage::Evaluation { .. }, PricingEvent::Config(config)) => price_readable(
            picker,
            config,
            order.lock_expired(),
        ),
        _ => true,
    }
}

impl PricingStage {
    /// What holds of an order whose pricing has come this far.
    pub open spec fn reached(self, order: OrderRequest) -> bool {
        match self {
            PricingStage::LockCheck | PricingStage::Filters | PricingStage::Clock { .. } => true,
            PricingStage::StakeBalance { funds, .. } => {
                &&& order.request.offer.deadlines_fit()
                &&& funds.gas_fits()
            },
            PricingStage::Preflight { cycles, .. } | PricingStage::Evaluation { cycles, .. } => {
                &&& order.request.offer.deadlines_fit()
                &&& cycles > 0
            },
            _ => order.request.offer.deadlines_fit(),
        }
    }
}

impl OrderPicker {
    /// The first question about an order. Only an order that is yet to be
    /// locked can be locked already.
    pub open spec fn first_stage(order: OrderRequest) -> PricingStage {
        if order.fulfillment_type == FulfillmentType::LockAndFulfill {
            PricingStage::LockCheck
        } else {
            PricingStage::Filters
        }
    }

    /// The first question about an order.
    pub fn start_pricing(&self, order: &OrderRequest) -> (r: PricingStage)
        ensures
            r == Self::first_stage(*order),
            r.reached(*order),
    {
        if order.fulfillment_type == FulfillmentType::LockAndFulfill {
            PricingStage::LockCheck
        } else {
            PricingStage::Filters
        }
    }

    /// Holds the client and the kind of an order against the configuration.
    pub fn check_filters(&self, order: &OrderRequest, config: &MarketConfig) -> (r: Option<
        SkipReason,
    >)
        ensures
            r == filter_reason(*order, *config),
    {
        if !config.is_allowed(order.request.client_address) {
            Some(SkipReason::NotAllowed)
        } else if config.is_denied(order.request.client_address) {
            Some(SkipReason::Denied)
        } else if !order.request.selector_supported {
            Some(SkipReason::UnsupportedSelector)
        } else {
            None
        }
    }

    /// The seconds that are left until the deadline of an order; none once it
    /// has passed.
    pub fn seconds_left(&self, order: &OrderRequest, now: u64) -> (r: u64)
        requires
            order.request.offer.deadlines_fit(),
        ensures
            r == (if order.expiration() > now {
                order.expiration() - now
            } else {
                0
            }),
    {
        let expiration: u64 = if order.is_lock_expired() {
            order.request.offer.bidding_start + order.request.offer.timeout as u64
        } else {
            order.request.offer.bidding_start + order.request.offer.lock_timeout as u64
        };
        if expiration > now {
            expiration - now
        } else {
            0
        }
    }

    /// Holds the deadline of an order against the time.
    pub fn check_deadline(&self, order: &OrderRequest, now: u64, min_deadline: u64) -> (r: Option<
        SkipReason,
    >)
        requires
            order.request.offer.deadlines_fit(),
        ensures
            r == deadline_reason(*order, now, min_deadline),
    {
        let seconds_left: u64 = self.seconds_left(order, now);
        if seconds_left == 0 {
            Some(SkipReason::Expired)
        } else if seconds_left <= min_deadline {
            Some(SkipReason::DeadlineTooClose)
        } else {
            None
        }
    }

    /// Holds the stake of an order against the largest that is allowed.
    pub fn check_stake_cap(&self, order: &OrderRequest, max_stake: U256) -> (r: Option<SkipReason>)
        ensures
            r == stake_cap_reason(*order, max_stake@),
    {
        if !order.is_lock_expired() && max_stake.lt(order.request.offer.lock_stake) {
            Some(SkipReason::StakeTooHigh)
        } else {
            None
        }
    }

    /// Holds what an order costs against what it pays and what is there.
    pub fn check_funds(
        &self,
        order: &OrderRequest,
        gas_cost: U256,
        available_gas: U256,
        reserved_gas: U256,
        available_stake: U256,
    ) -> (r: Option<SkipReason>)
        ensures
            r == funds_reason(
                *order,
                gas_cost@,
                available_gas@,
                reserved_gas@,
                available_stake@,
            ),
    {
        if order.request.offer.max_price.lt(gas_cost) && !order.is_lock_expired() {
            Some(SkipReason::GasExceedsMaxPrice)
        } else if available_gas.saturating_sub(reserved_gas).lt(gas_cost) {
            Some(SkipReason::InsufficientGas)
        } else if !order.is_lock_expired() && available_stake.lt(order.request.offer.lock_stake) {
            Some(SkipReason::InsufficientStake)
        } else {
            None
        }
    }

    /// Holds what may be run of an order against the least that can be proven.
    pub fn check_run(&self, plan: RunPlan) -> (r: Option<SkipReason>)
        ensures
            r == run_reason(plan),
    {
        if plan.limit < MIN_RUN_CYCLES {
            Some(SkipReason::ExecLimitTooLow)
        } else {
            None
        }
    }

    /// Holds a journal against the largest that is allowed, and against what
    /// the requestor asked for.
    pub fn check_journal(&self, journal: &Option<Journal>, max_bytes: usize) -> (r: Option<
        SkipReason,
    >)
        ensures
            r == journal_reason(*journal, max_bytes),
    {
        match journal {
            Some(printed) => if printed.bytes.len() > max_bytes {
                Some(SkipReason::JournalTooLarge)
            } else if !printed.predicate_holds {
                Some(SkipReason::PredicateFailed)
            } else {
                None
            },
            None => None,
        }
    }

    /// Whether the text of the configured price can be read.
    fn is_price_readable(&self, config: &MarketConfig, lock_expired: bool) -> (r: bool)
        ensures
            r == price_readable(*self, *config, lock_expired),
    {
        if lock_expired {
            is_readable(config.mcycle_price_stake_token.as_str(), self.stake_token_decimals)
        } else {
            is_readable(config.mcycle_price.as_str(), ETHER_DECIMALS)
        }
    }

    /// Whether the numbers of an answer are in range; see [`in_range`].
    pub fn is_in_range(
        &self,
        order: &OrderRequest,
        stage: &PricingStage,
        event: &PricingEvent,
    ) -> (r: bool)
        ensures
            r == in_range(*self, *order, *stage, *event),
    {
        match (stage, event) {
            (
                PricingStage::Clock { .. },
                PricingEvent::Clock(_),
            ) => order.request.offer.check_deadlines_fit(),
            (PricingStage::StakeCap { .. }, PricingEvent::Config(config)) => is_readable(
                config.max_stake.as_str(),
                ETHER_DECIMALS,
            ),
            (PricingStage::FulfillGas { lock_gas, .. }, PricingEvent::Gas(fulfill_gas)) => {
                *fulfill_gas <= u64::MAX - *lock_gas
            },
            (PricingStage::PendingGas { .. }, PricingEvent::PendingGas { lock, fulfill }) => {
                pending_gas_fits(lock, fulfill)
            },
            (PricingStage::CycleConfig { .. }, PricingEvent::Config(config)) => {
                self.is_price_readable(config, order.is_lock_expired()) && (
                order.is_lock_expired() || (match config.client_mcycle_limit(
                    order.request.client_address,
                ) {
                    Some(limit) => limit <= u64::MAX / ONE_MILLION,
                    None => true,
                }))
            },
            (PricingStage::Evaluation { .. }, PricingEvent::Config(config)) => {
                self.is_price_readable(config, order.is_lock_expired())
            },
            _ => true,
        }
    }

    /// The error for a question that got no answer.
    fn fail(stage: PricingStage, causes: Vec<String>) -> (r: OrderPickerErr)
        ensures
            r@ == failure(stage, causes.deep_view()),
    {
        match stage {
            PricingStage::LockCheck => OrderPickerErr::UnexpectedErr(
                ErrContext::CheckRequestLocked,
                causes,
            ),
            PricingStage::Filters
            | PricingStage::StakeCap { .. }
            | PricingStage::CycleConfig { .. }
            | PricingStage::Evaluation { .. } => OrderPickerErr::UnexpectedErr(
                ErrContext::ReadConfig,
                causes,
            ),
            PricingStage::GasPrice { .. }
            | PricingStage::ReservePrice { .. } => OrderPickerErr::UnexpectedErr(
                ErrContext::GasPrice,
                causes,
            ),
            PricingStage::SignerBalance { .. } => OrderPickerErr::RpcErr(causes),
            PricingStage::ImageUpload { .. } => OrderPickerErr::FetchImageErr(causes),
            PricingStage::InputUpload { .. } => OrderPickerErr::FetchInputErr(causes),
            PricingStage::Clock { .. }
            | PricingStage::LockGas { .. }
            | PricingStage::FulfillGas { .. }
            | PricingStage::PendingGas { .. }
            | PricingStage::StakeBalance { .. }
            | PricingStage::Preflight { .. } => OrderPickerErr::UnexpectedErr(
                ErrContext::Unnamed,
                causes,
            ),
        }
    }

    /// Skips for a reason, or goes on with the next question.
    fn skip_or_next(reason: Option<SkipReason>, next: PricingStage) -> (r: PricingStep)
        ensures
            r@ == skip_or(reason, next),
    {
        match reason {
            Some(why) => PricingStep::Skip(why),
            None => PricingStep::Next(next),
        }
    }

    /// Takes the answer to the open question and decides what follows: the next
    /// question, or what the order comes to. Decides whether to accept the
    /// order, and when to lock or prove it.
    pub fn price_order(
        &self,
        order: &mut OrderRequest,
        stage: PricingStage,
        event: PricingEvent,
    ) -> (r: PricingStep)
        requires
            stage.reached(*old(order)),
            in_range(*self, *old(order), stage, event),
        ensures
            r@ == next_step(*self, *old(order), stage, event),
            *final(order) == order_after(*old(order), stage, event),
            r matches PricingStep::Next(next) ==> next.reached(*final(order)),
    {
        match (stage, event) {
            (open_question, PricingEvent::Failed(causes)) => PricingStep::Fail(
                Self::fail(open_question, causes),
            ),
            (PricingStage::LockCheck, PricingEvent::RequestLocked(locked)) => {
                // The order has been locked in the meantime.
                if locked {
                    PricingStep::Skip(SkipReason::AlreadyLocked)
                } else {
                    PricingStep::Next(PricingStage::Filters)
                }
            },
            (PricingStage::Filters, PricingEvent::Config(config)) => {
                let reason = self.check_filters(order, &config);
                Self::skip_or_next(
                    reason,
                    PricingStage::Clock { min_deadline: config.min_deadline },
                )
            },
            (PricingStage::Clock { min_deadline }, PricingEvent::Clock(now)) => {
                let seconds_left: u64 = self.seconds_left(order, now);
                Self::skip_or_next(
                    self.check_deadline(order, now, min_deadline),
                    PricingStage::StakeCap { seconds_left },
                )
            },
            (PricingStage::StakeCap { seconds_left }, PricingEvent::Config(config)) => {
                match parse_ether(config.max_stake.as_str()) {
                    Ok(max_stake) => Self::skip_or_next(
                        self.check_stake_cap(order, max_stake),
                        PricingStage::GasPrice { seconds_left },
                    ),
                    Err(causes) => PricingStep::Fail(
                        OrderPickerErr::UnexpectedErr(ErrContext::ParseMaxStake, causes),
                    ),
                }
            },
            (PricingStage::GasPrice { seconds_left }, PricingEvent::GasPrice(gas_price)) => {
                // Locking takes gas only where there is something to lock.
                if order.is_lock_expired() {
                    PricingStep::Next(
                        PricingStage::FulfillGas { seconds_left, gas_price, lock_gas: 0 },
                    )
                } else {
                    PricingStep::Next(PricingStage::LockGas { seconds_left, gas_price })
                }
            },
            (PricingStage::LockGas { seconds_left, gas_price }, PricingEvent::Gas(lock_gas)) => {
                PricingStep::Next(PricingStage::FulfillGas { seconds_left, gas_price, lock_gas })
            },
            (
                PricingStage::FulfillGas { seconds_left, gas_price, lock_gas },
                PricingEvent::Gas(fulfill_gas),
            ) => {
                let bill = GasBill { price: gas_price, gas: lock_gas + fulfill_gas };
                PricingStep::Next(PricingStage::SignerBalance { seconds_left, bill })
            },
            (PricingStage::SignerBalance { seconds_left, bill }, PricingEvent::Balance(balance)) => {
                PricingStep::Next(PricingStage::ReservePrice { seconds_left, bill, balance })
            },
            (
                PricingStage::ReservePrice { seconds_left, bill, balance },
                PricingEvent::GasPrice(gas_price),
            ) => {
                PricingStep::Next(
                    PricingStage::PendingGas { seconds_left, bill, balance, gas_price },
                )
            },
            (
                PricingStage::PendingGas { seconds_left, bill, balance, gas_price },
                PricingEvent::PendingGas { lock, fulfill },
            ) => {
                let lock_pending_gas: u64 = self.estimate_gas_to_lock_pending(&lock);
                let fulfill_pending_gas: u64 = self.estimate_gas_to_fulfill_pending(&fulfill);
                let funds = GasFunds { balance, gas_price, lock_pending_gas, fulfill_pending_gas };
                PricingStep::Next(PricingStage::StakeBalance { seconds_left, bill, funds })
            },
            (
                PricingStage::StakeBalance { seconds_left, bill, funds },
                PricingEvent::StakeBalance { balance, pending_stake },
            ) => {
                let available_gas = self.available_gas_balance(funds.balance);
                let reserved_gas = self.gas_balance_reserved(
                    funds.gas_price,
                    funds.lock_pending_gas,
                    funds.fulfill_pending_gas,
                );
                let available_stake = self.available_stake_balance(balance, pending_stake);
                Self::skip_or_next(
                    self.check_funds(
                        order,
                        bill.cost(),
                        available_gas,
                        reserved_gas,
                        available_stake,
                    ),
                    PricingStage::ImageUpload { seconds_left, bill },
                )
            },
            (
                PricingStage::ImageUpload { seconds_left, bill },
                PricingEvent::Uploaded(image_id),
            ) => {
                PricingStep::Next(PricingStage::InputUpload { seconds_left, bill, image_id })
            },
            (
                PricingStage::InputUpload { seconds_left, bill, image_id },
                PricingEvent::Uploaded(input_id),
            ) => {
                order.image_id = Some(image_id);
                order.input_id = Some(input_id);
                PricingStep::Next(PricingStage::CycleConfig { seconds_left, bill })
            },
            (PricingStage::CycleConfig { seconds_left, bill }, PricingEvent::Config(config)) => {
                match self.plan_run(order, bill.cost(), &config, seconds_left) {
                    Ok(plan) => Self::skip_or_next(
                        self.check_run(plan),
                        PricingStage::Preflight { bill, cycles: plan.cycles, limit: plan.limit },
                    ),
                    Err(error) => PricingStep::Fail(error),
                }
            },
            (PricingStage::Preflight { .. }, PricingEvent::LimitExceeded) => {
                PricingStep::Skip(SkipReason::SessionLimitExceeded)
            },
            (PricingStage::Preflight { bill, cycles, .. }, PricingEvent::Ran(journal)) => {
                PricingStep::Next(PricingStage::Evaluation { bill, cycles, journal })
            },
            (PricingStage::Evaluation { bill, cycles, journal }, PricingEvent::Config(config)) => {
                match self.check_journal(&journal, config.max_journal_bytes) {
                    Some(why) => PricingStep::Skip(why),
                    None => {
                        let proof_res = synthetic_proof_result(order.id.as_str(), cycles);
                        let evaluated = self.evaluate_order(
                            order,
                            &proof_res,
                            bill.cost(),
                            order.is_lock_expired(),
                            &config,
                        );
                        match evaluated {
                            Ok(OrderPricingOutcome::Skip) => PricingStep::Skip(
                                SkipReason::Underpriced,
                            ),
                            Ok(outcome) => PricingStep::Done(outcome),
                            Err(error) => PricingStep::Fail(error),
                        }
                    },
                }
            },
            (open_question, _) => PricingStep::Next(open_question),
        }
    }
}

} // verus!
