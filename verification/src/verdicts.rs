//! What each answer leads to, and what an order comes to in the end, told from
//! the order and the answers.

use vstd::prelude::*;

use crate::config::MarketConfig;
use crate::error::{ErrContext, OrderPickerErrView};
use crate::evaluate::{affordable_cycles, limit_fits, lockable_cycles, run_plan_at};
use crate::gas::{total_gas, GasBill};
use crate::laws::{
    accepted_outcome, acceptable, law_first_reason_decides, law_taken_on_iff_acceptable,
    law_taken_on_order_knows_its_uploads, order_priced, pricing, PricingAnswers,
};
use crate::meaning::{
    law_cycles_are_rate_times_time, law_evaluation_of_an_order_to_be_locked,
    law_evaluation_of_an_order_with_an_expired_lock,
    law_gas_costs_its_price, law_plan_of_an_order_to_be_locked,
    law_plan_of_an_order_with_an_expired_lock, law_worth_locking_iff_the_price_covers_the_cycles,
    law_worth_proving_iff_the_reward_covers_the_cycles,
};
use crate::order::{FulfillmentType, Journal, OrderRequest};
use crate::outcome::{OrderPricingOutcome, SkipReason};
use crate::picker::OrderPicker;
use crate::pricing::{
    failure, in_range, next_step, order_after, GasFunds, PricingEvent, PricingStage,
    PricingStepView,
};
use crate::u256::{sat_mul, U256};
use crate::units::{parsed_ether, parsed_units, readable};
use crate::update::order_updated;

verus! {

// One answer at a time.

/// Only an order to be locked is looked up as locked. One that is locked already
/// is skipped, any other goes on to the filters.
pub proof fn law_locked_request_is_skipped(picker: OrderPicker, order: OrderRequest, locked: bool)
    ensures
        order.fulfillment_type == FulfillmentType::LockAndFulfill ==> OrderPicker::first_stage(
            order,
        ) == PricingStage::LockCheck,
        order.fulfillment_type == FulfillmentType::FulfillAfterLockExpire
            ==> OrderPicker::first_stage(order) == PricingStage::Filters,
        ({
            let step = next_step(
                picker,
                order,
                PricingStage::LockCheck,
                PricingEvent::RequestLocked(locked),
            );
            &&& locked ==> step == PricingStepView::Skip(SkipReason::AlreadyLocked)
            &&& !locked ==> step == PricingStepView::Next(PricingStage::Filters)
        }),
{
}

/// The filters skip by the entries of the lists and by the selector; an order that
/// passes them goes on with the least number of seconds that it must have left.
pub proof fn law_filters_skip_by_the_lists(
    picker: OrderPicker,
    order: OrderRequest,
    config: MarketConfig,
)
    ensures
        ({
            let client = order.request.client_address;
            let allowed = config.allow_client_addresses matches Some(list) ==> exists|i: int|
                0 <= i < list@.len() && #[trigger] list@[i] == client;
            let denied = config.deny_requestor_addresses matches Some(list) && exists|i: int|
                0 <= i < list@.len() && #[trigger] list@[i] == client;
            let step = next_step(
                picker,
                order,
                PricingStage::Filters,
                PricingEvent::Config(config),
            );
            &&& !allowed ==> step == PricingStepView::Skip(SkipReason::NotAllowed)
            &&& allowed && denied ==> step == PricingStepView::Skip(SkipReason::Denied)
            &&& allowed && !denied && !order.request.selector_supported ==> step
                == PricingStepView::Skip(SkipReason::UnsupportedSelector)
            &&& allowed && !denied && order.request.selector_supported ==> step
                == PricingStepView::Next(
                PricingStage::Clock { min_deadline: config.min_deadline },
            )
        }),
{
}

/// The clock skips an order whose deadline has passed or is too close; any other
/// goes on with the seconds that it has left.
pub proof fn law_clock_leaves_the_seconds_to_the_deadline(
    picker: OrderPicker,
    order: OrderRequest,
    min_deadline: u64,
    now: u64,
)
    requires
        order.request.offer.deadlines_fit(),
    ensures
        ({
            let offer = order.request.offer;
            let deadline = match order.fulfillment_type {
                FulfillmentType::LockAndFulfill => offer.bidding_start + offer.lock_timeout,
                FulfillmentType::FulfillAfterLockExpire => offer.bidding_start + offer.timeout,
            };
            let step = next_step(
                picker,
                order,
                PricingStage::Clock { min_deadline },
                PricingEvent::Clock(now),
            );
            &&& now >= deadline ==> step == PricingStepView::Skip(SkipReason::Expired)
            &&& now < deadline <= now + min_deadline ==> step == PricingStepView::Skip(
                SkipReason::DeadlineTooClose,
            )
            &&& deadline > now + min_deadline ==> {
                &&& step matches PricingStepView::Next(PricingStage::StakeCap { seconds_left })
                &&& now + seconds_left == deadline
            }
        }),
{
}

/// The largest stake is read as ether, and holds only where there is something to
/// lock.
pub proof fn law_stake_is_held_to_the_largest(
    picker: OrderPicker,
    order: OrderRequest,
    seconds_left: u64,
    config: MarketConfig,
)
    ensures
        ({
            let step = next_step(
                picker,
                order,
                PricingStage::StakeCap { seconds_left },
                PricingEvent::Config(config),
            );
            match parsed_ether(config.max_stake@) {
                Err(causes) => step == PricingStepView::Fail(
                    OrderPickerErrView::UnexpectedErr(ErrContext::ParseMaxStake, causes),
                ),
                Ok(max_stake) => {
                    let too_high = order.fulfillment_type == FulfillmentType::LockAndFulfill
                        && order.request.offer.lock_stake@ > max_stake;
                    &&& too_high ==> step == PricingStepView::Skip(SkipReason::StakeTooHigh)
                    &&& !too_high ==> step == PricingStepView::Next(
                        PricingStage::GasPrice { seconds_left },
                    )
                },
            }
        }),
{
}

/// An order pays gas to be fulfilled, and gas to be locked where it is to be
/// locked, at the price that was told.
pub proof fn law_order_pays_gas_to_lock_and_fulfill(
    picker: OrderPicker,
    order: OrderRequest,
    seconds_left: u64,
    gas_price: u128,
    lock_gas: u64,
    fulfill_gas: u64,
)
    requires
        lock_gas + fulfill_gas < 0x1_0000_0000_0000_0000,
    ensures
        ({
            let priced = next_step(
                picker,
                order,
                PricingStage::GasPrice { seconds_left },
                PricingEvent::GasPrice(gas_price),
            );
            match order.fulfillment_type {
                FulfillmentType::LockAndFulfill => priced == PricingStepView::Next(
                    PricingStage::LockGas { seconds_left, gas_price },
                ),
                FulfillmentType::FulfillAfterLockExpire => priced == PricingStepView::Next(
                    PricingStage::FulfillGas { seconds_left, gas_price, lock_gas: 0 },
                ),
            }
        }),
        next_step(
            picker,
            order,
            PricingStage::LockGas { seconds_left, gas_price },
            PricingEvent::Gas(lock_gas),
        ) == PricingStepView::Next(PricingStage::FulfillGas { seconds_left, gas_price, lock_gas }),
        next_step(
            picker,
            order,
            PricingStage::FulfillGas { seconds_left, gas_price, lock_gas },
            PricingEvent::Gas(fulfill_gas),
        ) matches PricingStepView::Next(PricingStage::SignerBalance { seconds_left: left, bill })
            && left == seconds_left && bill.price == gas_price && bill.gas == lock_gas
            + fulfill_gas,
{
}

/// What is reserved is the gas to lock and the gas to fulfill of all pending
/// orders, at the price that was told for it, out of the balance that was told.
pub proof fn law_pending_orders_are_reserved_for(
    picker: OrderPicker,
    order: OrderRequest,
    seconds_left: u64,
    bill: GasBill,
    balance: U256,
    gas_price: u128,
    lock: Vec<u64>,
    fulfill: Vec<u64>,
)
    requires
        total_gas(lock@) + total_gas(fulfill@) < 0x1_0000_0000_0000_0000,
    ensures
        next_step(
            picker,
            order,
            PricingStage::SignerBalance { seconds_left, bill },
            PricingEvent::Balance(balance),
        ) == PricingStepView::Next(PricingStage::ReservePrice { seconds_left, bill, balance }),
        next_step(
            picker,
            order,
            PricingStage::ReservePrice { seconds_left, bill, balance },
            PricingEvent::GasPrice(gas_price),
        ) == PricingStepView::Next(
            PricingStage::PendingGas { seconds_left, bill, balance, gas_price },
        ),
        next_step(
            picker,
            order,
            PricingStage::PendingGas { seconds_left, bill, balance, gas_price },
            PricingEvent::PendingGas { lock, fulfill },
        ) matches PricingStepView::Next(
            PricingStage::StakeBalance { seconds_left: left, bill: same_bill, funds },
        ) && left == seconds_left && same_bill == bill && funds.balance == balance
            && funds.gas_price == gas_price && funds.lock_pending_gas == total_gas(lock@)
            && funds.fulfill_pending_gas == total_gas(fulfill@),
{
}

/// An order goes on only if its price covers its gas, its gas is there beside what
/// is reserved, and its stake is there beside what is yet to be locked; price and
/// stake count only where it is to be locked.
pub proof fn law_unaffordable_order_is_skipped(
    picker: OrderPicker,
    order: OrderRequest,
    seconds_left: u64,
    bill: GasBill,
    funds: GasFunds,
    balance: U256,
    pending_stake: U256,
)
    ensures
        ({
            let to_lock = order.fulfillment_type == FulfillmentType::LockAndFulfill;
            let stake = order.request.offer.lock_stake@;
            let cost = bill.price * bill.gas;
            let reserved = funds.gas_price * funds.lock_pending_gas + funds.gas_price
                * funds.fulfill_pending_gas;
            let gas_paid = to_lock ==> cost <= order.request.offer.max_price@;
            let gas_there = cost == 0 || cost + reserved <= funds.balance@;
            let stake_there = to_lock ==> stake == 0 || stake + pending_stake@ <= balance@;
            let step = next_step(
                picker,
                order,
                PricingStage::StakeBalance { seconds_left, bill, funds },
                PricingEvent::StakeBalance { balance, pending_stake },
            );
            &&& !gas_paid ==> step == PricingStepView::Skip(SkipReason::GasExceedsMaxPrice)
            &&& gas_paid && !gas_there ==> step == PricingStepView::Skip(
                SkipReason::InsufficientGas,
            )
            &&& gas_paid && gas_there && !stake_there ==> step == PricingStepView::Skip(
                SkipReason::InsufficientStake,
            )
            &&& gas_paid && gas_there && stake_there ==> step == PricingStepView::Next(
                PricingStage::ImageUpload { seconds_left, bill },
            )
        }),
{
    law_gas_costs_its_price(bill, funds);
}

/// Both uploads are made, and only then does the order know where they are; nothing
/// else about it changes, then or ever.
pub proof fn law_uploads_are_kept_with_the_order(
    picker: OrderPicker,
    order: OrderRequest,
    seconds_left: u64,
    bill: GasBill,
    image_id: String,
    input_id: String,
    stage: PricingStage,
    event: PricingEvent,
)
    ensures
        next_step(
            picker,
            order,
            PricingStage::ImageUpload { seconds_left, bill },
            PricingEvent::Uploaded(image_id),
        ) == PricingStepView::Next(PricingStage::InputUpload { seconds_left, bill, image_id }),
        next_step(
            picker,
            order,
            PricingStage::InputUpload { seconds_left, bill, image_id },
            PricingEvent::Uploaded(input_id),
        ) == PricingStepView::Next(PricingStage::CycleConfig { seconds_left, bill }),
        ({
            let after = order_after(
                order,
                PricingStage::InputUpload { seconds_left, bill, image_id },
                PricingEvent::Uploaded(input_id),
            );
            &&& after.image_id == Some(image_id)
            &&& after.input_id == Some(input_id)
        }),
        ({
            let after = order_after(order, stage, event);
            &&& stage !is InputUpload || event !is Uploaded ==> after == order
            &&& after.id == order.id
            &&& after.request == order.request
            &&& after.fulfillment_type == order.fulfillment_type
            &&& after.total_cycles == order.total_cycles
            &&& after.target_timestamp == order.target_timestamp
            &&& after.expire_timestamp == order.expire_timestamp
        }),
{
}

/// An order is run as its plan says, at the price for its kind. Without a price it
/// fails, and with fewer than two cycles to run it is skipped.
pub proof fn law_run_follows_the_plan(
    picker: OrderPicker,
    order: OrderRequest,
    seconds_left: u64,
    bill: GasBill,
    config: MarketConfig,
)
    ensures
        ({
            let read = match order.fulfillment_type {
                FulfillmentType::LockAndFulfill => parsed_ether(config.mcycle_price@),
                FulfillmentType::FulfillAfterLockExpire => parsed_units(
                    config.mcycle_price_stake_token@,
                    picker.stake_token_decimals,
                ),
            };
            let step = next_step(
                picker,
                order,
                PricingStage::CycleConfig { seconds_left, bill },
                PricingEvent::Config(config),
            );
            match read {
                Err(causes) => step == PricingStepView::Fail(
                    OrderPickerErrView::UnexpectedErr(ErrContext::ParseMcyclePrice, causes),
                ),
                Ok(price) => {
                    let plan = run_plan_at(
                        order,
                        (bill.price * bill.gas) as nat,
                        price,
                        config,
                        seconds_left,
                    );
                    &&& plan.limit < 2 ==> step == PricingStepView::Skip(
                        SkipReason::ExecLimitTooLow,
                    )
                    &&& plan.limit >= 2 ==> {
                        &&& step matches PricingStepView::Next(
                            PricingStage::Preflight { bill: same_bill, cycles, limit },
                        )
                        &&& same_bill == bill
                        &&& cycles == plan.cycles
                        &&& limit == plan.limit
                    }
                },
            }
        }),
{
}

/// A run that takes more than its limit skips the order; any other goes on with
/// what it printed.
pub proof fn law_run_over_its_limit_is_skipped(
    picker: OrderPicker,
    order: OrderRequest,
    bill: GasBill,
    cycles: u64,
    limit: u64,
    journal: Option<Journal>,
)
    ensures
        ({
            let stage = PricingStage::Preflight { bill, cycles, limit };
            &&& next_step(picker, order, stage, PricingEvent::LimitExceeded)
                == PricingStepView::Skip(SkipReason::SessionLimitExceeded)
            &&& next_step(picker, order, stage, PricingEvent::Ran(journal))
                == PricingStepView::Next(PricingStage::Evaluation { bill, cycles, journal })
        }),
{
}

/// In the end an order is skipped for a journal that is too large or not as asked,
/// fails without a price, and is taken on if and only if it covers its cycles.
pub proof fn law_order_that_covers_its_cycles_is_taken_on(
    picker: OrderPicker,
    order: OrderRequest,
    bill: GasBill,
    cycles: u64,
    journal: Option<Journal>,
    config: MarketConfig,
)
    requires
        cycles > 0,
        order.request.offer.deadlines_fit(),
    ensures
        ({
            let offer = order.request.offer;
            let to_lock = order.fulfillment_type == FulfillmentType::LockAndFulfill;
            let cost = bill.price * bill.gas;
            let left = if cost <= offer.max_price@ {
                (offer.max_price@ - cost) as nat
            } else {
                0
            };
            let paid = sat_mul(
                if to_lock {
                    left
                } else {
                    offer.stake_reward@
                },
                1_000_000,
            );
            let read = if to_lock {
                parsed_ether(config.mcycle_price@)
            } else {
                parsed_units(config.mcycle_price_stake_token@, picker.stake_token_decimals)
            };
            let too_large = journal matches Some(printed) && printed.bytes@.len()
                > config.max_journal_bytes;
            let not_as_asked = journal matches Some(printed) && !printed.predicate_holds;
            let step = next_step(
                picker,
                order,
                PricingStage::Evaluation { bill, cycles, journal },
                PricingEvent::Config(config),
            );
            &&& too_large ==> step == PricingStepView::Skip(SkipReason::JournalTooLarge)
            &&& !too_large && not_as_asked ==> step == PricingStepView::Skip(
                SkipReason::PredicateFailed,
            )
            &&& !too_large && !not_as_asked ==> match read {
                Err(causes) => step == PricingStepView::Fail(
                    OrderPickerErrView::UnexpectedErr(ErrContext::ParseMcyclePrice, causes),
                ),
                Ok(price) => {
                    &&& price * cycles > paid ==> step == PricingStepView::Skip(
                        SkipReason::Underpriced,
                    )
                    &&& price * cycles <= paid && to_lock ==> {
                        &&& step matches PricingStepView::Done(
                            OrderPricingOutcome::Lock {
                                total_cycles,
                                target_timestamp_secs,
                                expiry_secs,
                            },
                        )
                        &&& total_cycles == cycles
                        &&& target_timestamp_secs == 0
                        &&& expiry_secs == offer.bidding_start + offer.lock_timeout
                    }
                    &&& price * cycles <= paid && !to_lock ==> {
                        &&& step matches PricingStepView::Done(
                            OrderPricingOutcome::ProveAfterLockExpire {
                                total_cycles,
                                lock_expire_timestamp_secs,
                                expiry_secs,
                            },
                        )
                        &&& total_cycles == cycles
                        &&& lock_expire_timestamp_secs == offer.bidding_start
                            + offer.lock_timeout
                        &&& expiry_secs == offer.bidding_start + offer.timeout
                    }
                },
            }
        }),
{
    let no_funds = GasFunds {
        balance: order.request.offer.max_price,
        gas_price: 0,
        lock_pending_gas: 0,
        fulfill_pending_gas: 0,
    };
    law_gas_costs_its_price(bill, no_funds);
    if order.fulfillment_type == FulfillmentType::LockAndFulfill {
        let read = parsed_ether(config.mcycle_price@);
        law_evaluation_of_an_order_to_be_locked(
            order,
            cycles,
            bill.amount(),
            read->Ok_0,
            read->Err_0,
        );
    } else {
        let read = parsed_units(config.mcycle_price_stake_token@, picker.stake_token_decimals);
        law_evaluation_of_an_order_with_an_expired_lock(
            order,
            cycles,
            bill.amount(),
            read->Ok_0,
            read->Err_0,
        );
    }
}

/// A question that gets no answer fails with the error of what was asked: the
/// database, the configuration, the gas price, the account, the uploads, or
/// anything else.
pub proof fn law_failure_names_what_was_asked(
    picker: OrderPicker,
    order: OrderRequest,
    stage: PricingStage,
    causes: Vec<String>,
)
    ensures
        ({
            let texts = causes.deep_view();
            let error = match stage {
                PricingStage::LockCheck => OrderPickerErrView::UnexpectedErr(
                    ErrContext::CheckRequestLocked,
                    texts,
                ),
                PricingStage::Filters => OrderPickerErrView::UnexpectedErr(
                    ErrContext::ReadConfig,
                    texts,
                ),
                PricingStage::StakeCap { .. } => OrderPickerErrView::UnexpectedErr(
                    ErrContext::ReadConfig,
                    texts,
                ),
                PricingStage::CycleConfig { .. } => OrderPickerErrView::UnexpectedErr(
                    ErrContext::ReadConfig,
                    texts,
                ),
                PricingStage::Evaluation { .. } => OrderPickerErrView::UnexpectedErr(
                    ErrContext::ReadConfig,
                    texts,
                ),
                PricingStage::GasPrice { .. } => OrderPickerErrView::UnexpectedErr(
                    ErrContext::GasPrice,
                    texts,
                ),
                PricingStage::ReservePrice { .. } => OrderPickerErrView::UnexpectedErr(
                    ErrContext::GasPrice,
                    texts,
                ),
                PricingStage::SignerBalance { .. } => OrderPickerErrView::RpcErr(texts),
                PricingStage::ImageUpload { .. } => OrderPickerErrView::FetchImageErr(texts),
                PricingStage::InputUpload { .. } => OrderPickerErrView::FetchInputErr(texts),
                _ => OrderPickerErrView::UnexpectedErr(ErrContext::Unnamed, texts),
            };
            &&& next_step(picker, order, stage, PricingEvent::Failed(causes))
                == PricingStepView::Fail(error)
            &&& failure(stage, texts) == error
        }),
{
}

/// `event` is an answer to the question that `stage` asks.
pub open spec fn is_answer(stage: PricingStage, event: PricingEvent) -> bool {
    match stage {
        PricingStage::LockCheck => event is RequestLocked,
        PricingStage::Filters
        | PricingStage::StakeCap { .. }
        | PricingStage::CycleConfig { .. }
        | PricingStage::Evaluation { .. } => event is Config,
        PricingStage::Clock { .. } => event is Clock,
        PricingStage::GasPrice { .. } | PricingStage::ReservePrice { .. } => event is GasPrice,
        PricingStage::LockGas { .. } | PricingStage::FulfillGas { .. } => event is Gas,
        PricingStage::SignerBalance { .. } => event is Balance,
        PricingStage::PendingGas { .. } => event is PendingGas,
        PricingStage::StakeBalance { .. } => event is StakeBalance,
        PricingStage::ImageUpload { .. } | PricingStage::InputUpload { .. } => event is Uploaded,
        PricingStage::Preflight { .. } => event is Ran || event is LimitExceeded,
    }
}

/// What does not answer the open question leaves it open, and the order as it is.
pub proof fn law_other_answers_change_nothing(
    picker: OrderPicker,
    order: OrderRequest,
    stage: PricingStage,
    event: PricingEvent,
)
    requires
        !is_answer(stage, event),
        event !is Failed,
    ensures
        next_step(picker, order, stage, event) == PricingStepView::Next(stage),
        order_after(order, stage, event) == order,
        in_range(picker, order, stage, event),
{
}

/// The numbers of an answer are out of range only where a deadline or a sum of gas
/// has no place in 64 bits, a limit cannot be counted in cycles, or the text of an
/// amount would be cut inside a character.
pub proof fn law_what_an_answer_has_to_fit(
    picker: OrderPicker,
    order: OrderRequest,
    stage: PricingStage,
    event: PricingEvent,
)
    ensures
        match (stage, event) {
            (PricingStage::Clock { .. }, PricingEvent::Clock(_)) => in_range(
                picker,
                order,
                stage,
                event,
            ) <==> order.request.offer.bidding_start + order.request.offer.lock_timeout
                < 0x1_0000_0000_0000_0000 && order.request.offer.bidding_start
                + order.request.offer.timeout < 0x1_0000_0000_0000_0000,
            (PricingStage::StakeCap { .. }, PricingEvent::Config(config)) => in_range(
                picker,
                order,
                stage,
                event,
            ) <==> readable(config.max_stake@, 18),
            (PricingStage::FulfillGas { lock_gas, .. }, PricingEvent::Gas(fulfill_gas)) => in_range(
                picker,
                order,
                stage,
                event,
            ) <==> lock_gas + fulfill_gas < 0x1_0000_0000_0000_0000,
            (PricingStage::PendingGas { .. }, PricingEvent::PendingGas { lock, fulfill }) => {
                in_range(picker, order, stage, event) <==> total_gas(lock@) + total_gas(fulfill@)
                    < 0x1_0000_0000_0000_0000
            },
            (PricingStage::CycleConfig { .. }, PricingEvent::Config(config)) => {
                match order.fulfillment_type {
                    FulfillmentType::LockAndFulfill => in_range(picker, order, stage, event)
                        <==> readable(config.mcycle_price@, 18) && limit_fits(
                        config.mcycle_limit_for(order.request.client_address),
                    ),
                    FulfillmentType::FulfillAfterLockExpire => in_range(picker, order, stage, event)
                        <==> readable(
                        config.mcycle_price_stake_token@,
                        picker.stake_token_decimals,
                    ),
                }
            },
            (PricingStage::Evaluation { .. }, PricingEvent::Config(config)) => {
                match order.fulfillment_type {
                    FulfillmentType::LockAndFulfill => in_range(picker, order, stage, event)
                        <==> readable(config.mcycle_price@, 18),
                    FulfillmentType::FulfillAfterLockExpire => in_range(picker, order, stage, event)
                        <==> readable(
                        config.mcycle_price_stake_token@,
                        picker.stake_token_decimals,
                    ),
                }
            },
            _ => in_range(picker, order, stage, event),
        },
{
}

/// What has been found out about an order on the way to a question: from the clock
/// on its deadlines fit, what is reserved fits, and it needs cycles.
pub proof fn law_what_a_question_rests_on(order: OrderRequest, stage: PricingStage)
    ensures
        ({
            let fits = order.request.offer.deadlines_fit();
            match stage {
                PricingStage::LockCheck => stage.reached(order),
                PricingStage::Filters => stage.reached(order),
                PricingStage::Clock { .. } => stage.reached(order),
                PricingStage::StakeBalance { funds, .. } => stage.reached(order) <==> fits
                    && funds.lock_pending_gas + funds.fulfill_pending_gas < 0x1_0000_0000_0000_0000,
                PricingStage::Preflight { cycles, .. } => stage.reached(order) <==> fits && cycles
                    > 0,
                PricingStage::Evaluation { cycles, .. } => stage.reached(order) <==> fits && cycles
                    > 0,
                _ => stage.reached(order) <==> fits,
            }
        }),
{
}

// From the first question to the last.

/// Whoever equals an entry of the deny list gets no order taken on, at whatever
/// place the entry stands.
pub proof fn law_denied_client_is_never_served(
    picker: OrderPicker,
    order: OrderRequest,
    answers: PricingAnswers,
    i: int,
)
    requires
        answers.gas_fits(order),
        answers.filters.deny_requestor_addresses is Some,
        0 <= i < answers.filters.deny_requestor_addresses->0@.len(),
        answers.filters.deny_requestor_addresses->0@[i] == order.request.client_address,
    ensures
        pricing(picker, order, answers) is Skip,
{
    law_first_reason_decides(picker, order, answers);
    let list = answers.filters.deny_requestor_addresses->0;
    assert(list@[i] == order.request.client_address);
    assert(list@.contains(order.request.client_address));
}

/// Whoever equals no entry of the deny list is not refused by it.
pub proof fn law_others_are_not_denied(
    picker: OrderPicker,
    order: OrderRequest,
    answers: PricingAnswers,
)
    requires
        answers.gas_fits(order),
        answers.filters.deny_requestor_addresses matches Some(list) ==> forall|i: int|
            0 <= i < list@.len() ==> #[trigger] list@[i] != order.request.client_address,
    ensures
        pricing(picker, order, answers) != PricingStepView::Skip(SkipReason::Denied),
{
    law_first_reason_decides(picker, order, answers);
}

/// An order to be locked is taken on if and only if nobody has locked it, its
/// client and its kind are accepted, it has time, its stake and its gas are allowed
/// for, paid for and there, enough of it can be run in time, it prints what it
/// should, and what is left of its price after gas covers its cycles.
pub proof fn law_order_is_locked_iff_it_pays(
    picker: OrderPicker,
    order: OrderRequest,
    answers: PricingAnswers,
)
    requires
        order.fulfillment_type == FulfillmentType::LockAndFulfill,
        order.request.offer.deadlines_fit(),
        answers.lock_gas + answers.fulfill_gas < 0x1_0000_0000_0000_0000,
        total_gas(answers.pending_lock_gas@) + total_gas(answers.pending_fulfill_gas@)
            < 0x1_0000_0000_0000_0000,
        limit_fits(answers.cycle_config.mcycle_limit_for(order.request.client_address)),
    ensures
        ({
            let offer = order.request.offer;
            let client = order.request.client_address;
            let filters = answers.filters;
            let stake = offer.lock_stake@;
            let cost = answers.gas_price * (answers.lock_gas + answers.fulfill_gas);
            let reserved = answers.reserve_price * (total_gas(answers.pending_lock_gas@)
                + total_gas(answers.pending_fulfill_gas@));
            let max_stake = parsed_ether(answers.stake_cap.max_stake@);
            let cycle_price = parsed_ether(answers.cycle_config.mcycle_price@);
            let price = parsed_ether(answers.evaluation_config.mcycle_price@);
            let cycles = lockable_cycles(
                affordable_cycles(offer.max_price@, cost as nat, cycle_price->Ok_0),
                answers.cycle_config.mcycle_limit_for(client),
            );
            let deadline = offer.bidding_start + offer.lock_timeout;
            let end = pricing(picker, order, answers);
            let pays = {
                &&& !answers.locked
                &&& filters.allow_client_addresses matches Some(list) ==> exists|i: int|
                    0 <= i < list@.len() && #[trigger] list@[i] == client
                &&& filters.deny_requestor_addresses matches Some(list) ==> forall|i: int|
                    0 <= i < list@.len() ==> #[trigger] list@[i] != client
                &&& order.request.selector_supported
                &&& answers.now + filters.min_deadline < deadline
                &&& max_stake is Ok
                &&& stake <= max_stake->Ok_0
                &&& stake == 0 || stake + answers.pending_stake@ <= answers.stake_balance@
                &&& cost <= offer.max_price@
                &&& cost == 0 || cost + reserved <= answers.balance@
                &&& cycle_price is Ok
                &&& answers.cycle_config.peak_prove_khz matches Some(khz) ==> khz * 1_000 * (
                deadline - answers.now) >= 2
                &&& !answers.runs_over
                &&& answers.journal matches Some(printed) ==> printed.bytes@.len()
                    <= answers.evaluation_config.max_journal_bytes && printed.predicate_holds
                &&& price is Ok
                &&& price->Ok_0 * cycles <= sat_mul((offer.max_price@ - cost) as nat, 1_000_000)
            };
            &&& end is Done <==> pays
            &&& end matches PricingStepView::Done(outcome) ==> {
                &&& outcome is Lock
                &&& outcome->Lock_total_cycles == cycles
                &&& outcome->target_timestamp_secs == 0
                &&& outcome->Lock_expiry_secs == deadline
            }
        }),
{
    let offer = order.request.offer;
    let cost = answers.gas_cost(order);
    let cycle_price = parsed_ether(answers.cycle_config.mcycle_price@);
    let price = parsed_ether(answers.evaluation_config.mcycle_price@);
    let seconds = answers.seconds_left(order);
    law_taken_on_iff_acceptable(picker, order, answers);
    lemma_cost_and_reserve(order, answers);
    law_plan_of_an_order_to_be_locked(
        order,
        cost,
        cycle_price->Ok_0,
        answers.cycle_config,
        seconds as u64,
    );
    let plan = answers.plan(order, cycle_price->Ok_0);
    law_worth_locking_iff_the_price_covers_the_cycles(order, plan.cycles, cost, price->Ok_0);
    if let Some(khz) = answers.cycle_config.peak_prove_khz {
        law_cycles_are_rate_times_time(khz, seconds as u64);
    }
    let cycles = lockable_cycles(
        affordable_cycles(offer.max_price@, cost, cycle_price->Ok_0),
        answers.cycle_config.mcycle_limit_for(order.request.client_address),
    );
    assert(plan.cycles == cycles);
    assert(answers.worth(order, plan, price->Ok_0) == crate::evaluate::lockable_worth(
        order,
        plan.cycles,
        cost,
        price->Ok_0,
    ));
}

/// An order whose lock has expired is taken on if and only if its client and its
/// kind are accepted, it has time, its gas is there, enough of it can be run in
/// time and is covered by its reward, it prints what it should, and its reward
/// covers fifty million cycles.
pub proof fn law_order_is_proven_after_a_lock_iff_it_pays(
    picker: OrderPicker,
    order: OrderRequest,
    answers: PricingAnswers,
)
    requires
        order.fulfillment_type == FulfillmentType::FulfillAfterLockExpire,
        order.request.offer.deadlines_fit(),
        total_gas(answers.pending_lock_gas@) + total_gas(answers.pending_fulfill_gas@)
            < 0x1_0000_0000_0000_0000,
    ensures
        ({
            let offer = order.request.offer;
            let client = order.request.client_address;
            let filters = answers.filters;
            let cost = answers.gas_price * answers.fulfill_gas;
            let reserved = answers.reserve_price * (total_gas(answers.pending_lock_gas@)
                + total_gas(answers.pending_fulfill_gas@));
            let paid = sat_mul(offer.stake_reward@, 1_000_000);
            let cycle_price = parsed_units(
                answers.cycle_config.mcycle_price_stake_token@,
                picker.stake_token_decimals,
            );
            let price = parsed_units(
                answers.evaluation_config.mcycle_price_stake_token@,
                picker.stake_token_decimals,
            );
            let deadline = offer.bidding_start + offer.timeout;
            let end = pricing(picker, order, answers);
            let pays = {
                &&& filters.allow_client_addresses matches Some(list) ==> exists|i: int|
                    0 <= i < list@.len() && #[trigger] list@[i] == client
                &&& filters.deny_requestor_addresses matches Some(list) ==> forall|i: int|
                    0 <= i < list@.len() ==> #[trigger] list@[i] != client
                &&& order.request.selector_supported
                &&& answers.now + filters.min_deadline < deadline
                &&& parsed_ether(answers.stake_cap.max_stake@) is Ok
                &&& cost == 0 || cost + reserved <= answers.balance@
                &&& cycle_price is Ok
                &&& 2 * cycle_price->Ok_0 <= paid
                &&& answers.cycle_config.peak_prove_khz matches Some(khz) ==> khz * 1_000 * (
                deadline - answers.now) >= 2
                &&& !answers.runs_over
                &&& answers.journal matches Some(printed) ==> printed.bytes@.len()
                    <= answers.evaluation_config.max_journal_bytes && printed.predicate_holds
                &&& price is Ok
                &&& price->Ok_0 * 50_000_000 <= paid
            };
            &&& end is Done <==> pays
            &&& end matches PricingStepView::Done(outcome) ==> {
                &&& outcome is ProveAfterLockExpire
                &&& outcome->ProveAfterLockExpire_total_cycles == 50_000_000
                &&& outcome->lock_expire_timestamp_secs == offer.bidding_start
                    + offer.lock_timeout
                &&& outcome->ProveAfterLockExpire_expiry_secs == deadline
            }
        }),
{
    let cost = answers.gas_cost(order);
    let decimals = picker.stake_token_decimals;
    let cycle_price = parsed_units(answers.cycle_config.mcycle_price_stake_token@, decimals);
    let price = parsed_units(answers.evaluation_config.mcycle_price_stake_token@, decimals);
    let seconds = answers.seconds_left(order);
    let paid = sat_mul(order.request.offer.stake_reward@, 1_000_000);
    law_taken_on_iff_acceptable(picker, order, answers);
    lemma_cost_and_reserve(order, answers);
    law_plan_of_an_order_with_an_expired_lock(
        order,
        cost,
        cycle_price->Ok_0,
        answers.cycle_config,
        seconds as u64,
    );
    let plan = answers.plan(order, cycle_price->Ok_0);
    law_worth_proving_iff_the_reward_covers_the_cycles(order, plan.cycles, price->Ok_0);
    if let Some(khz) = answers.cycle_config.peak_prove_khz {
        law_cycles_are_rate_times_time(khz, seconds as u64);
    }
    let limit = plan.limit as int;
    let each = cycle_price->Ok_0 as int;
    assert(limit >= 2 ==> 2 * each <= limit * each) by (nonlinear_arith)
        requires
            each >= 0,
    ;
    assert(limit < 2 ==> (limit + 1) * each <= 2 * each) by (nonlinear_arith)
        requires
            each >= 0,
    ;
}

/// The cost of an order's gas and what is reserved, as products.
proof fn lemma_cost_and_reserve(order: OrderRequest, answers: PricingAnswers)
    ensures
        order.lock_expired() ==> answers.gas_cost(order) == answers.gas_price
            * answers.fulfill_gas,
        !order.lock_expired() ==> answers.gas_cost(order) == answers.gas_price * (answers.lock_gas
            + answers.fulfill_gas),
        answers.gas_reserved() == answers.reserve_price * (total_gas(answers.pending_lock_gas@)
            + total_gas(answers.pending_fulfill_gas@)),
{
    let price = answers.gas_price as int;
    let lock = answers.lock_gas as int;
    let fulfill = answers.fulfill_gas as int;
    let reserve_price = answers.reserve_price as int;
    let pending = (total_gas(answers.pending_lock_gas@) + total_gas(
        answers.pending_fulfill_gas@,
    )) as int;
    assert(price * fulfill >= 0 && price * (lock + fulfill) >= 0 && reserve_price * pending >= 0)
        by (nonlinear_arith)
        requires
            price >= 0,
            lock >= 0,
            fulfill >= 0,
            reserve_price >= 0,
            pending >= 0,
    ;
}

/// An order that is taken on carries what pricing found: when to lock or prove it
/// and until when, counted from the start of bidding, and where its uploads are.
pub proof fn law_taken_on_order_carries_its_times(
    picker: OrderPicker,
    order: OrderRequest,
    answers: PricingAnswers,
)
    requires
        answers.gas_fits(order),
        order.request.offer.deadlines_fit(),
        pricing(picker, order, answers) is Done,
    ensures
        ({
            let offer = order.request.offer;
            let end = pricing(picker, order, answers);
            let sent = order_updated(order_priced(picker, order, answers), end.result_view());
            &&& sent.image_id == Some(answers.image_id)
            &&& sent.input_id == Some(answers.input_id)
            &&& sent.target_timestamp is Some
            &&& sent.expire_timestamp is Some
            &&& sent.total_cycles is Some
            &&& match order.fulfillment_type {
                FulfillmentType::LockAndFulfill => {
                    &&& sent.target_timestamp->0 == 0
                    &&& sent.expire_timestamp->0 == offer.bidding_start + offer.lock_timeout
                    &&& sent.total_cycles->0 >= 100_000_000
                },
                FulfillmentType::FulfillAfterLockExpire => {
                    &&& sent.target_timestamp->0 == offer.bidding_start + offer.lock_timeout
                    &&& sent.expire_timestamp->0 == offer.bidding_start + offer.timeout
                    &&& sent.total_cycles->0 == 50_000_000
                },
            }
        }),
{
    law_taken_on_iff_acceptable(picker, order, answers);
    law_taken_on_order_knows_its_uploads(picker, order, answers);
    assert(pricing(picker, order, answers) == PricingStepView::Done(
        accepted_outcome(picker, order, answers),
    ));
    assert(acceptable(picker, order, answers));
}

} // verus!
