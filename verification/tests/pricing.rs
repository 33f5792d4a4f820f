//! Orders priced from the first question to the last, under a given state of
//! the outside world.

use std::collections::HashSet;

use order_picker::config::{MarketConfig, OrderPricingPriority};
use order_picker::error::{ErrContext, OrderPickerErr};
use order_picker::evaluate::preflight_cycle_limit;
use order_picker::order::{Address, FulfillmentType, Journal, Offer, OrderRequest, ProofRequest};
use order_picker::outcome::{OrderPricingOutcome, SkipReason};
use order_picker::picker::OrderPicker;
use order_picker::pricing::{PricingEvent, PricingStage, PricingStep};
use order_picker::schedule::{Admission, PricingSchedule, ScheduleAction, ScheduleEvent};
use order_picker::u256::U256;
use order_picker::update::OrderUpdate;

const NOW: u64 = 1_750_000_000;

const CLIENT: Address = Address { head: 0xf39f_d6e5_1aad_88f6, middle: 0xf4ce_6ab8_8272_79cf, tail: 0xffb9_2266 };
const ZERO_ADDRESS: Address = Address { head: 0, middle: 0, tail: 0 };

fn wei(amount: &str) -> U256 {
    let limbs = alloy::primitives::utils::parse_ether(amount).unwrap().into_limbs();
    U256::from_words(limbs[0], limbs[1], limbs[2], limbs[3])
}

fn stake(amount: &str, decimals: u8) -> U256 {
    let units: alloy::primitives::U256 =
        alloy::primitives::utils::parse_units(amount, decimals).unwrap().into();
    let limbs = units.into_limbs();
    U256::from_words(limbs[0], limbs[1], limbs[2], limbs[3])
}

fn quarter(amount: U256) -> U256 {
    U256::from_u64(amount.to_u64().unwrap() / 4)
}

fn config() -> MarketConfig {
    MarketConfig {
        min_deadline: 100,
        allow_client_addresses: None,
        deny_requestor_addresses: None,
        priority_requestor_addresses: None,
        max_stake: "0.1".to_string(),
        mcycle_price: "0.0000001".to_string(),
        mcycle_price_stake_token: "0.0000001".to_string(),
        max_mcycle_limit: None,
        peak_prove_khz: None,
        max_journal_bytes: 10_000,
        max_concurrent_preflights: 2,
        order_pricing_priority: OrderPricingPriority { tag: 0 },
    }
}

/// What the outside would answer.
struct World {
    config: MarketConfig,
    locked: bool,
    gas_price: u128,
    lock_gas: u64,
    fulfill_gas: u64,
    balance: U256,
    pending_lock_gas: Vec<u64>,
    pending_fulfill_gas: Vec<u64>,
    stake_balance: U256,
    pending_stake: U256,
    /// How many cycles the program takes.
    program_cycles: u64,
    journal: Option<Journal>,
    /// The question that gets no answer, if there is one.
    broken: Option<&'static str>,
}

fn world() -> World {
    World {
        config: config(),
        locked: false,
        gas_price: 2_200_000_000,
        lock_gas: 200_000,
        fulfill_gas: 300_000,
        balance: wei("10000"),
        pending_lock_gas: vec![],
        pending_fulfill_gas: vec![],
        stake_balance: U256::from_u64(0),
        pending_stake: U256::from_u64(0),
        program_cycles: 0,
        journal: None,
        broken: None,
    }
}

fn order(index: u32) -> OrderRequest {
    OrderRequest {
        id: format!("order-{index}"),
        request: ProofRequest {
            id: U256::from_u64(index as u64),
            client_address: CLIENT,
            selector_supported: true,
            offer: Offer {
                min_price: wei("0.02"),
                max_price: wei("0.04"),
                bidding_start: NOW,
                ramp_up_period: 1,
                lock_timeout: 900,
                timeout: 1200,
                lock_stake: U256::from_u64(0),
                stake_reward: U256::from_u64(0),
            },
        },
        fulfillment_type: FulfillmentType::LockAndFulfill,
        image_id: None,
        input_id: None,
        total_cycles: None,
        target_timestamp: None,
        expire_timestamp: None,
    }
}

fn name(stage: &PricingStage) -> &'static str {
    match stage {
        PricingStage::LockCheck => "lock check",
        PricingStage::Filters => "filters",
        PricingStage::Clock { .. } => "clock",
        PricingStage::StakeCap { .. } => "stake cap",
        PricingStage::GasPrice { .. } => "gas price",
        PricingStage::LockGas { .. } => "lock gas",
        PricingStage::FulfillGas { .. } => "fulfill gas",
        PricingStage::SignerBalance { .. } => "signer balance",
        PricingStage::ReservePrice { .. } => "reserve price",
        PricingStage::PendingGas { .. } => "pending gas",
        PricingStage::StakeBalance { .. } => "stake balance",
        PricingStage::ImageUpload { .. } => "image upload",
        PricingStage::InputUpload { .. } => "input upload",
        PricingStage::CycleConfig { .. } => "cycle config",
        PricingStage::Preflight { .. } => "preflight",
        PricingStage::Evaluation { .. } => "evaluation",
    }
}

/// The texts of an error and of all that it is due to.
fn chain(error: anyhow::Error) -> Vec<String> {
    error.chain().map(|cause| cause.to_string()).collect()
}

/// Why a question gets no answer.
fn out_of_order() -> Vec<String> {
    vec!["out of order".to_string(), "no power".to_string()]
}

impl World {
    fn answer(&self, stage: &PricingStage) -> PricingEvent {
        if self.broken == Some(name(stage)) {
            return PricingEvent::Failed(out_of_order());
        }
        match stage {
            PricingStage::LockCheck => PricingEvent::RequestLocked(self.locked),
            PricingStage::Filters
            | PricingStage::StakeCap { .. }
            | PricingStage::CycleConfig { .. }
            | PricingStage::Evaluation { .. } => PricingEvent::Config(self.config.clone()),
            PricingStage::Clock { .. } => PricingEvent::Clock(NOW),
            PricingStage::GasPrice { .. } | PricingStage::ReservePrice { .. } => {
                PricingEvent::GasPrice(self.gas_price)
            }
            PricingStage::LockGas { .. } => PricingEvent::Gas(self.lock_gas),
            PricingStage::FulfillGas { .. } => PricingEvent::Gas(self.fulfill_gas),
            PricingStage::SignerBalance { .. } => PricingEvent::Balance(self.balance),
            PricingStage::PendingGas { .. } => PricingEvent::PendingGas {
                lock: self.pending_lock_gas.clone(),
                fulfill: self.pending_fulfill_gas.clone(),
            },
            PricingStage::StakeBalance { .. } => PricingEvent::StakeBalance {
                balance: self.stake_balance,
                pending_stake: self.pending_stake,
            },
            PricingStage::ImageUpload { .. } => PricingEvent::Uploaded("image".to_string()),
            PricingStage::InputUpload { .. } => PricingEvent::Uploaded("input".to_string()),
            PricingStage::Preflight { limit, .. } if self.program_cycles > *limit => {
                PricingEvent::LimitExceeded
            }
            PricingStage::Preflight { .. } => PricingEvent::Ran(self.journal.clone()),
        }
    }

    /// Prices an order; gives the names of the questions that were asked, too.
    fn price(&self, picker: &OrderPicker, order: &mut OrderRequest) -> (PricingStep, Vec<&'static str>) {
        let (end, asked) = self.price_and_record(picker, order);
        (end, asked.iter().map(name).collect())
    }

    /// Prices an order; gives the questions that were asked, too.
    fn price_and_record(
        &self,
        picker: &OrderPicker,
        order: &mut OrderRequest,
    ) -> (PricingStep, Vec<PricingStage>) {
        let mut asked = vec![];
        let mut stage = picker.start_pricing(order);
        loop {
            asked.push(stage.clone());
            let event = self.answer(&stage);
            assert!(picker.is_in_range(order, &stage, &event));
            match picker.price_order(order, stage, event) {
                PricingStep::Next(next) => stage = next,
                end => return (end, asked),
            }
        }
    }

    /// The cycles that an order is taken to need, and how many of them may be run
    /// ahead of proving.
    fn run_limit(&self, order: &mut OrderRequest) -> (u64, u64) {
        let (_, asked) = self.price_and_record(&OrderPicker::new(6), order);
        let limits: Vec<(u64, u64)> = asked
            .iter()
            .filter_map(|stage| match stage {
                PricingStage::Preflight { cycles, limit, .. } => Some((*cycles, *limit)),
                _ => None,
            })
            .collect();
        assert_eq!(limits.len(), 1);
        limits[0]
    }

    /// Prices an order and updates it; says whether it was sent on.
    fn price_and_update(&self, picker: &OrderPicker, order: &mut OrderRequest) -> bool {
        let (end, _) = self.price(picker, order);
        let update = picker.price_order_and_update_state(order, end.result());
        assert_ne!(update, OrderUpdate::Leave);
        picker.counts_as_priced(update, true)
    }

    fn skips(&self, order: &mut OrderRequest, reason: SkipReason) {
        let picker = OrderPicker::new(6);
        let before = order.clone();
        let (end, _) = self.price(&picker, order);
        assert_eq!(end, PricingStep::Skip(reason));
        let update = picker.price_order_and_update_state(order, end.result());
        assert_eq!(update, OrderUpdate::InsertSkipped);
        assert!(!picker.counts_as_priced(update, true));
        assert_eq!(order.target_timestamp, before.target_timestamp);
        assert_eq!(order.expire_timestamp, before.expire_timestamp);
        assert_eq!(order.total_cycles, before.total_cycles);
    }
}

#[test]
fn price_order() {
    let mut order = order(1);
    assert!(world().price_and_update(&OrderPicker::new(6), &mut order));
    assert_eq!(order.target_timestamp, Some(0));
    assert_eq!(order.expire_timestamp, Some(NOW + 900));
    // (0.04 - 0.0011) ether at 0.0000001 ether per million cycles.
    assert_eq!(order.total_cycles, Some(389_000_000_000));
    assert_eq!(order.image_id, Some("image".to_string()));
    assert_eq!(order.input_id, Some("input".to_string()));
}

#[test]
fn skip_bad_predicate() {
    let mut w = world();
    w.journal = Some(Journal { bytes: vec![0x41, 0x41, 0x41, 0x41], predicate_holds: false });
    w.skips(&mut order(1), SkipReason::PredicateFailed);
    w.journal = Some(Journal { bytes: vec![0x41, 0x41, 0x41, 0x41], predicate_holds: true });
    assert!(w.price_and_update(&OrderPicker::new(6), &mut order(1)));
}

#[test]
fn skip_unsupported_selector() {
    let mut order = order(1);
    order.request.selector_supported = false;
    world().skips(&mut order, SkipReason::UnsupportedSelector);
}

#[test]
fn skip_price_less_than_gas_costs() {
    let mut order = order(1);
    order.request.offer.min_price = wei("0.0005");
    order.request.offer.max_price = wei("0.0010");
    world().skips(&mut order, SkipReason::GasExceedsMaxPrice);
}

/// An order at 0.0013 ether is locked, and skipped once fulfilling it takes
/// this much more gas.
fn skipped_for_more_gas(more: u64) {
    let mut w = world();
    let mut order = order(1);
    order.request.offer.min_price = wei("0.0013");
    order.request.offer.max_price = wei("0.0013");
    let mut second = order.clone();
    second.id = "order-2".to_string();
    assert!(w.price_and_update(&OrderPicker::new(6), &mut order));
    assert_eq!(order.target_timestamp, Some(0));
    w.fulfill_gas += more;
    w.skips(&mut second, SkipReason::GasExceedsMaxPrice);
}

#[test]
fn skip_price_less_than_gas_costs_groth16() {
    skipped_for_more_gas(250_000);
}

#[test]
fn skip_price_less_than_gas_costs_callback() {
    skipped_for_more_gas(200_000);
}

#[test]
fn skip_price_less_than_gas_costs_smart_contract_signature() {
    skipped_for_more_gas(100_000);
}

#[test]
fn skip_unallowed_addr() {
    let mut w = world();
    w.config.allow_client_addresses = Some(vec![ZERO_ADDRESS]);
    w.skips(&mut order(1), SkipReason::NotAllowed);
    w.config.allow_client_addresses = Some(vec![ZERO_ADDRESS, CLIENT]);
    assert!(w.price_and_update(&OrderPicker::new(6), &mut order(1)));
}

#[test]
fn skip_denied_addr() {
    let mut w = world();
    w.config.deny_requestor_addresses = Some(vec![CLIENT]);
    w.skips(&mut order(1), SkipReason::Denied);
    w.config.deny_requestor_addresses = Some(vec![ZERO_ADDRESS]);
    assert!(w.price_and_update(&OrderPicker::new(6), &mut order(1)));
}

/// Runs the monitor on some events, takes the longest waiting order first, and
/// gives the ids that were started.
fn run_monitor(
    schedule: &mut PricingSchedule,
    remembered: &mut HashSet<String>,
    events: Vec<ScheduleEvent>,
) -> Vec<String> {
    let mut started = vec![];
    for event in events {
        match schedule.handle(event) {
            ScheduleAction::Dispatch(_) => {}
            end => panic!("{end:?}"),
        }
        while schedule.wants_order() {
            let order = schedule.take_order(0).unwrap();
            let known = remembered.contains(&order.id);
            match schedule.decide(known) {
                Admission::Duplicate => {}
                Admission::Start => {
                    remembered.insert(order.id.clone());
                    started.push(order.id);
                }
            }
        }
        assert!(schedule.running <= schedule.capacity || started.is_empty());
    }
    started
}

#[test]
fn resume_order_pricing() {
    let mut remembered = HashSet::new();
    let mut schedule = PricingSchedule::new(&config());
    let started = run_monitor(&mut schedule, &mut remembered, vec![ScheduleEvent::NewOrder(order(1))]);
    assert_eq!(started, vec!["order-1".to_string()]);
    assert_eq!(schedule.handle(ScheduleEvent::Cancelled), ScheduleAction::Shutdown);

    // The next order waits in the channel until the monitor is up again.
    let mut resumed = PricingSchedule::new(&config());
    let started = run_monitor(&mut resumed, &mut remembered, vec![ScheduleEvent::NewOrder(order(2))]);
    assert_eq!(started, vec!["order-2".to_string()]);
}

#[test]
fn cannot_overcommit_stake() {
    let mut w = world();
    w.config.max_stake = "10".to_string();
    w.balance = wei("2");
    w.stake_balance = U256::from_u64(150);

    let mut first = order(1);
    first.request.offer.lock_stake = U256::from_u64(100);
    assert!(w.price_and_update(&OrderPicker::new(6), &mut first));
    assert_eq!(first.id, "order-1");

    let mut second = order(2);
    second.request.offer.lock_stake = U256::from_u64(151);
    w.skips(&mut second, SkipReason::InsufficientStake);

    let mut third = order(3);
    third.request.offer.lock_stake = stake("11", 18);
    w.skips(&mut third, SkipReason::StakeTooHigh);

    // What the first order will take is not there for another.
    w.pending_stake = U256::from_u64(100);
    let mut fourth = order(4);
    fourth.request.offer.lock_stake = U256::from_u64(51);
    w.skips(&mut fourth, SkipReason::InsufficientStake);
    fourth.request.offer.lock_stake = U256::from_u64(50);
    assert!(w.price_and_update(&OrderPicker::new(6), &mut fourth));
}

#[test]
fn use_gas_to_fulfill_estimate_from_config() {
    let fulfill_gas: u64 = 123_456;
    let picker = OrderPicker::new(6);
    let mut w = world();
    w.fulfill_gas = fulfill_gas;

    assert!(w.price_and_update(&picker, &mut order(1)));
    w.pending_fulfill_gas.push(fulfill_gas);
    assert_eq!(picker.estimate_gas_to_fulfill_pending(&w.pending_fulfill_gas), fulfill_gas);

    assert!(w.price_and_update(&picker, &mut order(2)));
    w.pending_fulfill_gas.push(fulfill_gas);
    assert_eq!(picker.estimate_gas_to_fulfill_pending(&w.pending_fulfill_gas), 2 * fulfill_gas);
}

#[test]
fn skips_journal_exceeding_limit() {
    let mut w = world();
    w.config.max_journal_bytes = 1;
    w.stake_balance = U256::from_u64(10);
    w.journal = Some(Journal { bytes: vec![0x41, 0x41, 0x41, 0x41], predicate_holds: true });
    let mut order = order(1);
    order.request.offer.lock_stake = U256::from_u64(10);
    w.skips(&mut order, SkipReason::JournalTooLarge);
    w.config.max_journal_bytes = 4;
    assert!(w.price_and_update(&OrderPicker::new(6), &mut order));
}

#[test]
fn price_locked_by_other() {
    let mut w = world();
    w.stake_balance = U256::from_u64(1000);
    let mut order = order(1);
    order.fulfillment_type = FulfillmentType::FulfillAfterLockExpire;
    order.request.offer.lock_timeout = 1000;
    order.request.offer.timeout = 10000;
    order.request.offer.lock_stake = stake("0.1", 6);
    order.request.offer.stake_reward = quarter(stake("0.1", 6));
    assert!(w.price_and_update(&OrderPicker::new(6), &mut order));
    assert_eq!(order.target_timestamp, Some(NOW + 1000));
    assert_eq!(order.expire_timestamp, Some(NOW + 10000));
    assert_eq!(order.total_cycles, Some(50_000_000));
}

#[test]
fn price_locked_by_other_unprofitable() {
    let mut w = world();
    w.config.mcycle_price_stake_token = "0.1".to_string();
    let mut order = order(1);
    order.fulfillment_type = FulfillmentType::FulfillAfterLockExpire;
    order.request.offer.lock_timeout = 0;
    order.request.offer.timeout = 10000;
    order.request.offer.lock_stake = stake("0.00001", 6);
    order.request.offer.stake_reward = quarter(stake("0.00001", 6));
    // The most cycles that can be proven while keeping the order profitable.
    assert_eq!(w.run_limit(&mut order), (50_000_000, 20));
    w.program_cycles = 4_000;
    w.skips(&mut order, SkipReason::SessionLimitExceeded);
    // A program that is not run is no more profitable.
    w.program_cycles = 0;
    w.skips(&mut order, SkipReason::Underpriced);
}

#[test]
fn skip_mcycle_limit_for_allowed_address() {
    let mut w = world();
    w.config.max_mcycle_limit = Some(1000);
    w.config.priority_requestor_addresses = Some(vec![CLIENT]);

    let mut first = order(1);
    assert!(w.price_and_update(&OrderPicker::new(6), &mut first));
    assert_eq!(first.total_cycles, Some(389_000_000_000));

    let mut second = order(2);
    second.request.client_address = ZERO_ADDRESS;
    assert!(w.price_and_update(&OrderPicker::new(6), &mut second));
    assert_eq!(second.total_cycles, Some(1_000_000_000));
}

#[test]
fn test_deadline_exec_limit_and_peak_prove_khz() {
    let mut w = world();
    w.config.peak_prove_khz = Some(1);
    w.config.min_deadline = 10;
    let mut order = order(1);
    order.request.offer.min_price = wei("10");
    order.request.offer.max_price = wei("10");
    order.request.offer.lock_timeout = 150;
    order.request.offer.timeout = 300;
    assert!(w.price_and_update(&OrderPicker::new(6), &mut order));
    let estimate = order.total_cycles.unwrap();
    assert_eq!(estimate, 99_989_000_000_000);
    // What may be run of the order is capped by the rate and the time left.
    assert_eq!(w.run_limit(&mut order), (estimate, 150_000));
    w.config.peak_prove_khz = None;
    assert_eq!(w.run_limit(&mut order), (estimate, estimate));
    // Once the lock has expired, the request's deadline counts.
    w.config.peak_prove_khz = Some(1);
    order.fulfillment_type = FulfillmentType::FulfillAfterLockExpire;
    assert_eq!(w.run_limit(&mut order), (50_000_000, 300_000));
    assert_eq!(preflight_cycle_limit(estimate, Some(1), 150), 150_000);
    assert_eq!(preflight_cycle_limit(estimate, None, 150), estimate);
    assert_eq!(preflight_cycle_limit(100_000, Some(1), 150), 100_000);
}

#[test]
fn test_capacity_change() {
    let mut remembered = HashSet::new();
    let mut schedule = PricingSchedule::new(&config());
    assert_eq!(schedule.capacity, 2);
    run_monitor(&mut schedule, &mut remembered, vec![ScheduleEvent::NewOrder(order(1))]);

    let mut lowered = config();
    lowered.max_concurrent_preflights = 1;
    match schedule.handle(ScheduleEvent::ConfigRead(lowered.clone())) {
        ScheduleAction::Dispatch(change) => {
            assert_eq!(change.capacity, Some((2, 1)));
            assert_eq!(change.priority_mode, None);
        }
        other => panic!("{other:?}"),
    }
    match schedule.handle(ScheduleEvent::ConfigRead(lowered)) {
        ScheduleAction::Dispatch(change) => assert_eq!(change.capacity, None),
        other => panic!("{other:?}"),
    }

    // One order is in pricing, so the next has to wait for it.
    let started = run_monitor(&mut schedule, &mut remembered, vec![ScheduleEvent::NewOrder(order(2))]);
    assert!(started.is_empty());
    let started = run_monitor(&mut schedule, &mut remembered, vec![ScheduleEvent::TaskCompleted]);
    assert_eq!(started, vec!["order-2".to_string()]);
}

#[test]
fn test_lock_expired_exec_limit_precision_loss() {
    let mut w = world();
    w.config.mcycle_price_stake_token = "1".to_string();
    w.program_cycles = 4_000;
    let locked_by_other = |index: u32, lock_stake: u64| {
        let mut order = order(index);
        order.fulfillment_type = FulfillmentType::FulfillAfterLockExpire;
        order.request.offer.bidding_start = NOW - 100;
        order.request.offer.lock_timeout = 10;
        order.request.offer.timeout = 300;
        order.request.offer.lock_stake = U256::from_u64(lock_stake);
        order.request.offer.stake_reward = quarter(U256::from_u64(lock_stake));
        order
    };

    let mut first = locked_by_other(1, 4);
    assert_eq!(first.request.offer.stake_reward, U256::from_u64(1));
    let (end, _) = w.price(&OrderPicker::new(6), &mut first);
    assert_eq!(end, PricingStep::Skip(SkipReason::ExecLimitTooLow));
    assert_eq!(end.result(), Some(Ok(OrderPricingOutcome::Skip)));

    let mut second = locked_by_other(2, 40);
    assert_eq!(second.request.offer.stake_reward, U256::from_u64(10));
    // The token's decimals offset the million cycles, so this is 10.
    assert_eq!(w.run_limit(&mut second), (50_000_000, 10));
    let (end, _) = w.price(&OrderPicker::new(6), &mut second);
    assert_eq!(end, PricingStep::Skip(SkipReason::SessionLimitExceeded));
    assert_eq!(end.result(), Some(Ok(OrderPricingOutcome::Skip)));
}

#[test]
fn runs_end_at_their_limit() {
    let mut w = world();
    w.config.peak_prove_khz = Some(1);
    // 900 seconds at 1 kHz.
    w.program_cycles = 900_000;
    assert!(w.price_and_update(&OrderPicker::new(6), &mut order(1)));
    w.program_cycles = 900_001;
    w.skips(&mut order(1), SkipReason::SessionLimitExceeded);
    w.config.peak_prove_khz = Some(0);
    w.skips(&mut order(1), SkipReason::ExecLimitTooLow);
    w.config.peak_prove_khz = None;
    assert!(w.price_and_update(&OrderPicker::new(6), &mut order(1)));
}

#[test]
fn test_order_is_locked_check() {
    let mut w = world();
    w.locked = true;
    let mut order = order(1);
    let (end, asked) = w.price(&OrderPicker::new(6), &mut order);
    assert_eq!(end, PricingStep::Skip(SkipReason::AlreadyLocked));
    assert_eq!(end.result(), Some(Ok(OrderPricingOutcome::Skip)));
    assert_eq!(asked, vec!["lock check"]);

    // Another prover's lock does not stand in the way of fulfilling after it.
    order.fulfillment_type = FulfillmentType::FulfillAfterLockExpire;
    let (end, asked) = w.price(&OrderPicker::new(6), &mut order);
    assert!(matches!(end, PricingStep::Done(OrderPricingOutcome::ProveAfterLockExpire { .. })));
    assert_eq!(asked[0], "filters");
}

#[test]
fn test_duplicate_order_cache() {
    let first = order(1);
    let second = order(1);
    assert_eq!(first.id, second.id, "Both orders should have the same ID");

    let mut remembered = HashSet::new();
    let mut schedule = PricingSchedule::new(&config());
    let started = run_monitor(
        &mut schedule,
        &mut remembered,
        vec![ScheduleEvent::NewOrder(first), ScheduleEvent::NewOrder(second)],
    );
    assert_eq!(started, vec!["order-1".to_string()], "Second order should be deduplicated and not processed");
    assert_eq!(schedule.running, 1);
    assert!(schedule.pending_orders.is_empty());
}

#[test]
fn questions_come_in_order() {
    let (end, asked) = world().price(&OrderPicker::new(6), &mut order(1));
    assert_eq!(
        end,
        PricingStep::Done(OrderPricingOutcome::Lock {
            total_cycles: 389_000_000_000,
            target_timestamp_secs: 0,
            expiry_secs: NOW + 900,
        })
    );
    assert_eq!(
        asked,
        vec![
            "lock check",
            "filters",
            "clock",
            "stake cap",
            "gas price",
            "lock gas",
            "fulfill gas",
            "signer balance",
            "reserve price",
            "pending gas",
            "stake balance",
            "image upload",
            "input upload",
            "cycle config",
            "preflight",
            "evaluation",
        ]
    );

    let mut expired = order(2);
    expired.fulfillment_type = FulfillmentType::FulfillAfterLockExpire;
    let (_, asked) = world().price(&OrderPicker::new(6), &mut expired);
    assert_eq!(
        asked,
        vec![
            "filters",
            "clock",
            "stake cap",
            "gas price",
            "fulfill gas",
            "signer balance",
            "reserve price",
            "pending gas",
            "stake balance",
            "image upload",
            "input upload",
            "cycle config",
            "preflight",
            "evaluation",
        ]
    );
}

#[test]
fn deadlines_are_exclusive() {
    let mut w = world();
    let mut order = order(1);
    order.request.offer.bidding_start = NOW - 900;
    w.skips(&mut order, SkipReason::Expired);
    order.request.offer.bidding_start = NOW - 899;
    w.skips(&mut order, SkipReason::DeadlineTooClose);
    order.request.offer.bidding_start = NOW - 800;
    w.skips(&mut order, SkipReason::DeadlineTooClose);
    order.request.offer.bidding_start = NOW - 799;
    assert!(w.price_and_update(&OrderPicker::new(6), &mut order));
    // The lock's deadline counts, even where the request's is far off.
    w.config.min_deadline = 101;
    w.skips(&mut order, SkipReason::DeadlineTooClose);
    // Once the lock has expired, the request's deadline counts.
    order.fulfillment_type = FulfillmentType::FulfillAfterLockExpire;
    assert!(w.price_and_update(&OrderPicker::new(6), &mut order));
}

#[test]
fn gas_that_is_reserved_is_not_spent_again() {
    let mut w = world();
    // 500,000 gas at 2.2 gwei, and nothing beyond.
    w.balance = wei("0.0011");
    assert!(w.price_and_update(&OrderPicker::new(6), &mut order(1)));
    w.pending_fulfill_gas = vec![1];
    w.skips(&mut order(1), SkipReason::InsufficientGas);
    w.balance = wei("0.0011000022");
    assert!(w.price_and_update(&OrderPicker::new(6), &mut order(1)));
    w.pending_fulfill_gas = vec![1_000_000];
    w.skips(&mut order(1), SkipReason::InsufficientGas);
}

#[test]
fn gas_to_lock_pending_orders_is_reserved() {
    let mut w = world();
    // 500,000 gas at 2.2 gwei, and as much again for a pending order.
    w.balance = wei("0.0022");
    w.pending_fulfill_gas = vec![300_000];
    assert!(w.price_and_update(&OrderPicker::new(6), &mut order(1)));
    w.pending_lock_gas = vec![200_000];
    assert!(w.price_and_update(&OrderPicker::new(6), &mut order(1)));
    w.pending_lock_gas = vec![200_000, 1];
    w.skips(&mut order(1), SkipReason::InsufficientGas);
}

#[test]
fn orders_that_are_taken_on_know_their_uploads() {
    for kind in [FulfillmentType::LockAndFulfill, FulfillmentType::FulfillAfterLockExpire] {
        let mut w = world();
        w.config.mcycle_price_stake_token = "0".to_string();
        let mut order = order(1);
        order.fulfillment_type = kind;
        let before = order.clone();
        assert!(w.price_and_update(&OrderPicker::new(6), &mut order));
        assert_eq!(order.image_id, Some("image".to_string()));
        assert_eq!(order.input_id, Some("input".to_string()));
        assert!(order.total_cycles.is_some());
        assert!(order.target_timestamp.is_some());
        assert!(order.expire_timestamp.is_some());
        assert_eq!(order.id, before.id);
        assert_eq!(order.request, before.request);
        assert_eq!(order.fulfillment_type, before.fulfillment_type);
    }
}

#[test]
fn expired_locks_are_held_to_neither_stake_nor_price() {
    let mut w = world();
    w.config.max_stake = "0".to_string();
    let mut order = order(1);
    order.request.offer.lock_stake = U256::from_u64(5);
    order.request.offer.max_price = U256::from_u64(0);
    w.skips(&mut order, SkipReason::StakeTooHigh);
    order.fulfillment_type = FulfillmentType::FulfillAfterLockExpire;
    assert!(w.price_and_update(&OrderPicker::new(6), &mut order));
    // But gas to fulfill has to be there.
    w.balance = U256::from_u64(0);
    w.skips(&mut order, SkipReason::InsufficientGas);
}

#[test]
fn lock_is_worth_it_from_the_minimum_of_cycles_on() {
    let mut w = world();
    w.gas_price = 0;
    w.config.mcycle_price = "0.001".to_string();
    let mut order = order(1);
    // One hundred million cycles at 0.001 ether per million.
    order.request.offer.max_price = wei("0.1");
    assert!(w.price_and_update(&OrderPicker::new(6), &mut order));
    assert_eq!(order.total_cycles, Some(100_000_000));
    order.request.offer.max_price = wei("0.099999999999999999");
    let mut unpriced = order.clone();
    unpriced.total_cycles = None;
    w.skips(&mut unpriced, SkipReason::Underpriced);
    // A limit below the minimum does not make the order cheaper.
    w.config.max_mcycle_limit = Some(1);
    order.request.offer.max_price = wei("0.1");
    assert!(w.price_and_update(&OrderPicker::new(6), &mut order));
    assert_eq!(order.total_cycles, Some(100_000_000));
}

#[test]
fn unanswered_questions_fail_with_their_error() {
    let unexpected =
        |context: ErrContext| OrderPickerErr::UnexpectedErr(context, out_of_order());
    let expected = vec![
        ("lock check", unexpected(ErrContext::CheckRequestLocked)),
        ("filters", unexpected(ErrContext::ReadConfig)),
        ("stake cap", unexpected(ErrContext::ReadConfig)),
        ("gas price", unexpected(ErrContext::GasPrice)),
        ("lock gas", unexpected(ErrContext::Unnamed)),
        ("fulfill gas", unexpected(ErrContext::Unnamed)),
        ("signer balance", OrderPickerErr::RpcErr(out_of_order())),
        ("reserve price", unexpected(ErrContext::GasPrice)),
        ("pending gas", unexpected(ErrContext::Unnamed)),
        ("stake balance", unexpected(ErrContext::Unnamed)),
        ("image upload", OrderPickerErr::FetchImageErr(out_of_order())),
        ("input upload", OrderPickerErr::FetchInputErr(out_of_order())),
        ("cycle config", unexpected(ErrContext::ReadConfig)),
        ("preflight", unexpected(ErrContext::Unnamed)),
        ("evaluation", unexpected(ErrContext::ReadConfig)),
    ];
    for (question, error) in expected {
        let mut w = world();
        w.broken = Some(question);
        let picker = OrderPicker::new(6);
        let mut order = order(1);
        let (end, asked) = w.price(&picker, &mut order);
        assert_eq!(end, PricingStep::Fail(error));
        assert_eq!(asked.last(), Some(&question));
        let uploaded = matches!(question, "cycle config" | "preflight" | "evaluation");
        assert_eq!(order.image_id.is_some(), uploaded);
        assert_eq!(order.input_id.is_some(), uploaded);
        let update = picker.price_order_and_update_state(&mut order, end.result());
        assert_eq!(update, OrderUpdate::InsertSkipped);
        assert_eq!(order.target_timestamp, None);
    }
}

#[test]
fn configured_amounts_that_are_none_fail() {
    let picker = OrderPicker::new(6);
    let bad = "ten".to_string();
    let fails = |context: ErrContext, causes: Vec<String>| {
        PricingStep::Fail(OrderPickerErr::UnexpectedErr(context, causes))
    };
    let causes = chain(alloy::primitives::utils::parse_ether(&bad).unwrap_err().into());
    assert!(causes.len() > 1);

    let mut w = world();
    w.config.max_stake = bad.clone();
    let (end, asked) = w.price(&picker, &mut order(1));
    assert_eq!(end, fails(ErrContext::ParseMaxStake, causes.clone()));
    assert_eq!(asked.last(), Some(&"stake cap"));

    let mut w = world();
    w.config.mcycle_price = bad.clone();
    let (end, asked) = w.price(&picker, &mut order(1));
    assert_eq!(end, fails(ErrContext::ParseMcyclePrice, causes));
    assert_eq!(asked.last(), Some(&"cycle config"));

    let mut w = world();
    w.config.mcycle_price_stake_token = bad.clone();
    let mut expired = order(1);
    expired.fulfillment_type = FulfillmentType::FulfillAfterLockExpire;
    let causes = chain(alloy::primitives::utils::parse_units(&bad, 6).unwrap_err().into());
    let (end, asked) = w.price(&picker, &mut expired);
    assert_eq!(end, fails(ErrContext::ParseMcyclePrice, causes));
    assert_eq!(asked.last(), Some(&"cycle config"));

    // No unit has this many decimals.
    let (end, _) = world().price(&OrderPicker::new(78), &mut expired);
    assert_eq!(
        end,
        fails(ErrContext::ParseMcyclePrice, vec!["\"78\" is not a valid unit".to_string()])
    );
}

#[test]
fn answers_to_other_questions_are_passed_over() {
    let picker = OrderPicker::new(6);
    let mut order = order(1);
    let before = order.clone();
    let step = picker.price_order(&mut order, PricingStage::Filters, PricingEvent::Clock(NOW));
    assert_eq!(step, PricingStep::Next(PricingStage::Filters));
    assert_eq!(order, before);
}

#[test]
fn numbers_out_of_range_are_told() {
    let picker = OrderPicker::new(6);
    let clock = PricingStage::Clock { min_deadline: 0 };
    let mut late = order(1);
    late.request.offer.bidding_start = u64::MAX - 1200;
    assert!(picker.is_in_range(&late, &clock, &PricingEvent::Clock(NOW)));
    late.request.offer.bidding_start = u64::MAX - 1199;
    assert!(!picker.is_in_range(&late, &clock, &PricingEvent::Clock(NOW)));

    let gas = PricingStage::FulfillGas { seconds_left: 1, gas_price: 1, lock_gas: 1 };
    assert!(picker.is_in_range(&late, &gas, &PricingEvent::Gas(u64::MAX - 1)));
    assert!(!picker.is_in_range(&late, &gas, &PricingEvent::Gas(u64::MAX)));

    let bill = order_picker::gas::GasBill { price: 1, gas: 1 };
    let balance = U256::from_u64(0);
    let pending = PricingStage::PendingGas { seconds_left: 1, bill, balance, gas_price: 1 };
    let estimates = |lock: Vec<u64>, fulfill: Vec<u64>| PricingEvent::PendingGas { lock, fulfill };
    assert!(picker.is_in_range(&late, &pending, &estimates(vec![], vec![u64::MAX, 0])));
    assert!(!picker.is_in_range(&late, &pending, &estimates(vec![], vec![u64::MAX, 1])));
    assert!(!picker.is_in_range(&late, &pending, &estimates(vec![u64::MAX, 1], vec![])));
    assert!(picker.is_in_range(&late, &pending, &estimates(vec![1], vec![u64::MAX - 1])));
    assert!(!picker.is_in_range(&late, &pending, &estimates(vec![1], vec![u64::MAX])));

    let cycle = PricingStage::CycleConfig { seconds_left: 1, bill };
    let mut limited = config();
    limited.max_mcycle_limit = Some(18_446_744_073_709);
    assert!(picker.is_in_range(&late, &cycle, &PricingEvent::Config(limited.clone())));
    limited.max_mcycle_limit = Some(18_446_744_073_710);
    assert!(!picker.is_in_range(&late, &cycle, &PricingEvent::Config(limited.clone())));
    // No limit is counted for an order whose lock has expired.
    let mut expired = late.clone();
    expired.fulfillment_type = FulfillmentType::FulfillAfterLockExpire;
    assert!(picker.is_in_range(&expired, &cycle, &PricingEvent::Config(limited.clone())));
    // A priority requestor is held to no limit.
    limited.priority_requestor_addresses = Some(vec![CLIENT]);
    assert!(picker.is_in_range(&late, &cycle, &PricingEvent::Config(limited)));

    let mut cut = config();
    cut.max_stake = format!("1.{}é", "0".repeat(17));
    let stake_cap = PricingStage::StakeCap { seconds_left: 1 };
    assert!(!picker.is_in_range(&late, &stake_cap, &PricingEvent::Config(cut)));
}

#[test]
fn cancelled_pricing_leaves_the_order() {
    let picker = OrderPicker::new(6);
    let mut order = order(1);
    let before = order.clone();
    let update = picker.price_order_and_update_state(&mut order, None);
    assert_eq!(update, OrderUpdate::Leave);
    assert_eq!(order, before);
    assert!(!picker.counts_as_priced(update, true));
}

#[test]
fn an_order_that_cannot_be_sent_on_does_not_count() {
    let picker = OrderPicker::new(6);
    assert!(picker.counts_as_priced(OrderUpdate::SendPriced, true));
    assert!(!picker.counts_as_priced(OrderUpdate::SendPriced, false));
    assert!(!picker.counts_as_priced(OrderUpdate::InsertSkipped, true));
}

#[test]
fn taking_an_order_keeps_the_others_in_place() {
    let mut schedule = PricingSchedule::new(&config());
    for index in 1..4 {
        schedule.handle(ScheduleEvent::NewOrder(order(index)));
    }
    assert_eq!(schedule.take_order(1).unwrap().id, "order-2");
    assert_eq!(schedule.take_order(2), None);
    assert_eq!(schedule.take_order(1).unwrap().id, "order-3");
    assert_eq!(schedule.take_order(0).unwrap().id, "order-1");
    assert!(!schedule.wants_order());
}

#[test]
fn dispatching_stops_at_the_capacity() {
    let mut remembered = HashSet::new();
    let mut schedule = PricingSchedule::new(&config());
    let events = (1..5).map(|index| ScheduleEvent::NewOrder(order(index))).collect();
    let started = run_monitor(&mut schedule, &mut remembered, events);
    assert_eq!(started, vec!["order-1".to_string(), "order-2".to_string()]);
    assert_eq!(schedule.running, 2);
    assert_eq!(schedule.pending_orders.len(), 2);
}

#[test]
fn monitor_ends_on_a_configuration_that_cannot_be_read() {
    let mut schedule = PricingSchedule::new(&config());
    let before = schedule.clone();
    assert_eq!(
        schedule.handle(ScheduleEvent::ConfigFault("poisoned".to_string())),
        ScheduleAction::Fault(OrderPickerErr::UnexpectedErr(
            ErrContext::Unnamed,
            vec!["Failed to read config: poisoned".to_string()],
        ))
    );
    assert_eq!(schedule, before);
}

#[test]
fn priority_mode_changes_are_told() {
    let mut schedule = PricingSchedule::new(&config());
    let mut changed = config();
    changed.order_pricing_priority = OrderPricingPriority { tag: 2 };
    let change = schedule.apply_config(&changed);
    assert_eq!(change.capacity, None);
    assert_eq!(
        change.priority_mode,
        Some((OrderPricingPriority { tag: 0 }, OrderPricingPriority { tag: 2 }))
    );
    assert_eq!(schedule.priority_mode, OrderPricingPriority { tag: 2 });
}

#[test]
fn the_first_reason_decides() {
    let mut w = world();
    let mut order = order(1);
    // Everything speaks against this order; take away one reason at a time.
    w.locked = true;
    w.config.allow_client_addresses = Some(vec![ZERO_ADDRESS]);
    w.config.deny_requestor_addresses = Some(vec![CLIENT]);
    order.request.selector_supported = false;
    order.request.offer.bidding_start = NOW - 1000;
    w.config.max_stake = "0".to_string();
    order.request.offer.lock_stake = U256::from_u64(1);
    order.request.offer.max_price = U256::from_u64(0);
    w.balance = U256::from_u64(0);
    w.config.peak_prove_khz = Some(0);
    w.program_cycles = u64::MAX;
    w.journal = Some(Journal { bytes: vec![0; 10_001], predicate_holds: false });
    w.config.mcycle_price = "1000".to_string();
    w.skips(&mut order, SkipReason::AlreadyLocked);
    w.locked = false;
    w.skips(&mut order, SkipReason::NotAllowed);
    w.config.allow_client_addresses = None;
    w.skips(&mut order, SkipReason::Denied);
    w.config.deny_requestor_addresses = None;
    w.skips(&mut order, SkipReason::UnsupportedSelector);
    order.request.selector_supported = true;
    w.skips(&mut order, SkipReason::Expired);
    order.request.offer.bidding_start = NOW - 850;
    w.skips(&mut order, SkipReason::DeadlineTooClose);
    order.request.offer.bidding_start = NOW;
    w.skips(&mut order, SkipReason::StakeTooHigh);
    w.config.max_stake = "1".to_string();
    w.skips(&mut order, SkipReason::GasExceedsMaxPrice);
    order.request.offer.max_price = wei("1");
    w.skips(&mut order, SkipReason::InsufficientGas);
    w.balance = wei("1");
    w.skips(&mut order, SkipReason::InsufficientStake);
    w.stake_balance = U256::from_u64(1);
    w.skips(&mut order, SkipReason::ExecLimitTooLow);
    w.config.peak_prove_khz = None;
    w.skips(&mut order, SkipReason::SessionLimitExceeded);
    w.program_cycles = 0;
    w.skips(&mut order, SkipReason::JournalTooLarge);
    w.config.max_journal_bytes = 10_001;
    w.skips(&mut order, SkipReason::PredicateFailed);
    w.journal = None;
    w.skips(&mut order, SkipReason::Underpriced);
    w.config.mcycle_price = "0.001".to_string();
    assert!(w.price_and_update(&OrderPicker::new(6), &mut order));
}
