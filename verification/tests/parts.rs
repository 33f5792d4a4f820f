//! Amounts, errors, estimates and evaluations, each on its own.

use order_picker::config::{MarketConfig, OrderPricingPriority};
use order_picker::error::{ErrContext, OrderPickerErr};
use order_picker::evaluate::{affordable, rewarded, synthetic_proof_result, RunPlan};
use order_picker::gas::{checked_total_gas, pending_gas_fits, GasBill};
use order_picker::order::{is_listed, Address, FulfillmentType, Offer, OrderRequest, ProofRequest};
use order_picker::outcome::{OrderPricingOutcome, SkipReason};
use order_picker::picker::{
    calculate_max_cycles_for_time, OrderPicker, MIN_CAPACITY_CHECK_INTERVAL_SECS,
    ORDER_DEDUP_CACHE_SIZE, ORDER_DEDUP_TTL_SECS,
};
use order_picker::u256::U256;
use order_picker::units::is_readable;

const HOME: Address = Address { head: 1, middle: 2, tail: 3 };

fn config() -> MarketConfig {
    MarketConfig {
        min_deadline: 0,
        allow_client_addresses: None,
        deny_requestor_addresses: None,
        priority_requestor_addresses: None,
        max_stake: "1".to_string(),
        mcycle_price: "0.000000000001".to_string(),
        mcycle_price_stake_token: "0.5".to_string(),
        max_mcycle_limit: None,
        peak_prove_khz: None,
        max_journal_bytes: 0,
        max_concurrent_preflights: 0,
        order_pricing_priority: OrderPricingPriority { tag: 0 },
    }
}

fn order(max_price: U256, stake_reward: U256) -> OrderRequest {
    OrderRequest {
        id: "0x1-abc".to_string(),
        request: ProofRequest {
            id: U256::from_u64(1),
            client_address: HOME,
            selector_supported: true,
            offer: Offer {
                min_price: U256::from_u64(0),
                max_price,
                bidding_start: 1_000,
                ramp_up_period: 1,
                lock_timeout: 50,
                timeout: 70,
                lock_stake: U256::from_u64(0),
                stake_reward,
            },
        },
        fulfillment_type: FulfillmentType::LockAndFulfill,
        image_id: None,
        input_id: None,
        total_cycles: None,
        target_timestamp: None,
        expire_timestamp: None,
    }
}

/// Why some text is no amount of ether.
fn ether_error(amount: &str) -> Vec<String> {
    let error: anyhow::Error = alloy::primitives::utils::parse_ether(amount).unwrap_err().into();
    error.chain().map(|cause| cause.to_string()).collect()
}

fn small(x: u64) -> U256 {
    U256::from_u64(x)
}

fn max() -> U256 {
    U256::from_words(u64::MAX, u64::MAX, u64::MAX, u64::MAX)
}

#[test]
fn integers_become_amounts() {
    assert_eq!(U256::from_u64(7), U256::from_words(7, 0, 0, 0));
    assert_eq!(U256::from_u128(7), U256::from_words(7, 0, 0, 0));
    assert_eq!(U256::from_u128(u128::MAX), U256::from_words(u64::MAX, u64::MAX, 0, 0));
    assert_eq!(U256::from_u128(5 << 64), U256::from_words(0, 5, 0, 0));
}

#[test]
fn amounts_become_integers_where_they_fit() {
    assert_eq!(small(u64::MAX).to_u64(), Some(u64::MAX));
    assert_eq!(U256::from_words(0, 1, 0, 0).to_u64(), None);
    assert_eq!(U256::from_words(0, 0, 1, 0).to_u64(), None);
    assert_eq!(U256::from_words(0, 0, 0, 1).to_u64(), None);
}

#[test]
fn amounts_are_ordered_by_their_highest_word() {
    assert!(small(1).lt(small(2)));
    assert!(!small(2).lt(small(2)));
    assert!(!small(3).lt(small(2)));
    assert!(small(u64::MAX).lt(U256::from_words(0, 1, 0, 0)));
    assert!(U256::from_words(9, 9, 9, 1).lt(U256::from_words(0, 0, 0, 2)));
    assert!(!U256::from_words(0, 0, 3, 1).lt(U256::from_words(0, 9, 2, 1)));
}

#[test]
fn gas_costs_price_times_gas() {
    let bill = GasBill { price: 3_000_000_000, gas: 21_000 };
    assert_eq!(bill.cost(), small(63_000_000_000_000));
    let largest = GasBill { price: u128::MAX, gas: u64::MAX };
    // (2^128 - 1) * (2^64 - 1)
    assert_eq!(largest.cost(), U256::from_words(1, u64::MAX, u64::MAX - 1, 0));
}

#[test]
fn reserved_gas_is_not_there_for_another_order() {
    let picker = OrderPicker::new(6);
    assert_eq!(picker.gas_balance_reserved(10, 3, 4), small(70));
    assert_eq!(picker.gas_balance_reserved(10, 0, 7), small(70));
    assert_eq!(picker.gas_balance_reserved(10, 7, 0), small(70));
    assert_eq!(picker.available_gas_balance(small(100)), small(100));
    let order = order(small(1_000), small(0));
    let reason = |gas: u64, available: U256| {
        let reserved = picker.gas_balance_reserved(10, 3, 4);
        picker.check_funds(&order, small(gas), available, reserved, small(0))
    };
    assert_eq!(reason(30, small(100)), None);
    assert_eq!(reason(31, small(100)), Some(SkipReason::InsufficientGas));
    assert_eq!(reason(1, small(70)), Some(SkipReason::InsufficientGas));
    assert_eq!(reason(1, small(69)), Some(SkipReason::InsufficientGas));
    assert_eq!(reason(0, small(69)), None);
    assert_eq!(reason(1_000, U256::from_words(0, 1, 0, 0)), None);
}

#[test]
fn pending_stake_lowers_the_available_stake() {
    let picker = OrderPicker::new(6);
    assert_eq!(picker.available_stake_balance(small(150), small(0)), small(150));
    assert_eq!(picker.available_stake_balance(small(150), small(100)), small(50));
    assert_eq!(picker.available_stake_balance(small(150), small(151)), small(0));
}

#[test]
fn gas_estimates_add_up() {
    let picker = OrderPicker::new(6);
    assert_eq!(picker.estimate_gas_to_fulfill_pending(&vec![]), 0);
    let some = vec![1, 20];
    let more = vec![300, 4_000];
    let all = vec![1, 20, 300, 4_000];
    assert_eq!(
        picker.estimate_gas_to_fulfill_pending(&all),
        picker.estimate_gas_to_fulfill_pending(&some) + picker.estimate_gas_to_fulfill_pending(&more)
    );
    assert_eq!(picker.estimate_gas_to_fulfill_pending(&all), 4_321);
    assert_eq!(picker.estimate_gas_to_lock_pending(&all), 4_321);
    assert_eq!(checked_total_gas(&vec![u64::MAX]), Some(u64::MAX));
    assert_eq!(checked_total_gas(&vec![1, u64::MAX]), None);
    assert!(pending_gas_fits(&vec![1, 2], &vec![u64::MAX - 3]));
    assert!(!pending_gas_fits(&vec![1, 2], &vec![u64::MAX - 2]));
}

#[test]
fn cycles_for_time_saturate() {
    assert_eq!(calculate_max_cycles_for_time(1, 150), 150_000);
    assert_eq!(calculate_max_cycles_for_time(500, 60), 30_000_000);
    assert_eq!(calculate_max_cycles_for_time(0, 60), 0);
    assert_eq!(calculate_max_cycles_for_time(u64::MAX, 0), 0);
    assert_eq!(calculate_max_cycles_for_time(u64::MAX, 1), u64::MAX);
    assert_eq!(calculate_max_cycles_for_time(1, u64::MAX), u64::MAX);
    assert!(calculate_max_cycles_for_time(2, 10) <= calculate_max_cycles_for_time(3, 11));
}

#[test]
fn affordable_cycles_follow_the_price() {
    assert_eq!(affordable(small(10), small(4), small(3)), 2_000_000);
    assert_eq!(affordable(small(10), small(4), small(7)), 857_142);
    // A price of zero, or nothing left after gas, is no bound.
    assert_eq!(affordable(small(10), small(4), small(0)), 4_000_000_000);
    assert_eq!(affordable(small(10), small(10), small(3)), 4_000_000_000);
    assert_eq!(affordable(small(10), small(11), small(3)), 4_000_000_000);
    // Nor is a number that has no place in 64 bits.
    assert_eq!(affordable(small(18_446_744_073_709), small(0), small(1)), 18_446_744_073_709_000_000);
    assert_eq!(affordable(small(18_446_744_073_710), small(0), small(1)), 4_000_000_000);
    // The budget saturates before it is divided.
    assert_eq!(affordable(max(), small(0), max()), 1);
    assert_eq!(affordable(max(), small(0), U256::from_words(0, 0, 0, 1 << 63)), 1);
}

#[test]
fn estimates_stay_within_limit_and_minimum() {
    let picker = OrderPicker::new(6);
    let order = order(small(1_000), small(0));
    // 1,000 wei at one wei per million cycles.
    assert_eq!(picker.estimate_lockable_cycles_at(&order, small(0), small(1), None), 1_000_000_000);
    assert_eq!(
        picker.estimate_lockable_cycles_at(&order, small(0), small(1), Some(500)),
        500_000_000
    );
    assert_eq!(
        picker.estimate_lockable_cycles_at(&order, small(0), small(1), Some(1_001)),
        1_000_000_000
    );
    assert_eq!(
        picker.estimate_lockable_cycles_at(&order, small(0), small(1), Some(99)),
        100_000_000
    );
    assert_eq!(
        picker.estimate_lockable_cycles_at(&order, small(901), small(1), None),
        100_000_000
    );
}

#[test]
fn estimates_read_the_configured_price() {
    let picker = OrderPicker::new(6);
    let mut config = config();
    // 0.000000000001 ether are a million wei.
    let order = order(small(3_000_000_000), small(0));
    let cycles = |config: &MarketConfig| {
        picker.plan_run(&order, small(0), config, 60).map(|plan| plan.cycles)
    };
    assert_eq!(cycles(&config), Ok(3_000_000_000));
    config.max_mcycle_limit = Some(2_000);
    assert_eq!(cycles(&config), Ok(2_000_000_000));
    config.priority_requestor_addresses = Some(vec![HOME]);
    assert_eq!(cycles(&config), Ok(3_000_000_000));
    config.mcycle_price = "1 ether".to_string();
    assert_eq!(
        cycles(&config),
        Err(OrderPickerErr::UnexpectedErr(ErrContext::ParseMcyclePrice, ether_error("1 ether")))
    );
    // Without a price, a limit that is out of range does not matter.
    config.priority_requestor_addresses = None;
    config.max_mcycle_limit = Some(u64::MAX);
    assert!(cycles(&config).is_err());
}

#[test]
fn lockable_orders_are_held_to_the_price_after_gas() {
    let picker = OrderPicker::new(6);
    let proof = synthetic_proof_result("x", 2_000_000);
    let order = order(small(110), small(0));
    let lock = OrderPricingOutcome::Lock {
        total_cycles: 2_000_000,
        target_timestamp_secs: 0,
        expiry_secs: 1_050,
    };
    // 100 wei for two million cycles.
    assert_eq!(picker.evaluate_lockable_order_at(&order, &proof, small(10), small(50)), lock);
    assert_eq!(
        picker.evaluate_lockable_order_at(&order, &proof, small(10), small(51)),
        OrderPricingOutcome::Skip
    );
    assert_eq!(
        picker.evaluate_lockable_order_at(&order, &proof, small(11), small(50)),
        OrderPricingOutcome::Skip
    );
    // Gas beyond the price leaves nothing, which is worth a price of zero.
    assert_eq!(
        picker.evaluate_lockable_order_at(&order, &proof, small(200), small(1)),
        OrderPricingOutcome::Skip
    );
    assert_eq!(picker.evaluate_lockable_order_at(&order, &proof, small(200), small(0)), lock);
}

#[test]
fn lockable_orders_are_held_to_the_configured_price() {
    let picker = OrderPicker::new(6);
    let proof = synthetic_proof_result("x", 1_000_000);
    let mut config = config();
    let outcome = |amount: u64, config: &MarketConfig| {
        picker.evaluate_lockable_order(&order(small(amount), small(0)), &proof, small(0), config)
    };
    assert!(matches!(outcome(1_000_000, &config), Ok(OrderPricingOutcome::Lock { .. })));
    assert_eq!(outcome(999_999, &config), Ok(OrderPricingOutcome::Skip));
    config.mcycle_price = "x".to_string();
    assert_eq!(
        outcome(1_000_000, &config),
        Err(OrderPickerErr::UnexpectedErr(ErrContext::ParseMcyclePrice, ether_error("x")))
    );
}

#[test]
fn expired_orders_are_held_to_the_reward() {
    let picker = OrderPicker::new(6);
    let proof = synthetic_proof_result("x", 50_000_000);
    let taken = OrderPricingOutcome::ProveAfterLockExpire {
        total_cycles: 50_000_000,
        lock_expire_timestamp_secs: 1_050,
        expiry_secs: 1_070,
    };
    let order = order(small(0), small(500));
    assert_eq!(picker.evaluate_lock_expired_order_at(&order, &proof, small(10)), taken);
    assert_eq!(
        picker.evaluate_lock_expired_order_at(&order, &proof, small(11)),
        OrderPricingOutcome::Skip
    );
}

#[test]
fn expired_orders_are_held_to_the_configured_price_in_the_tokens_decimals() {
    let proof = synthetic_proof_result("x", 1_000_000);
    let mut config = config();
    let outcome = |decimals: u8, reward: u64, config: &MarketConfig| {
        OrderPicker::new(decimals).evaluate_lock_expired_order(
            &order(small(0), small(reward)),
            &proof,
            config,
        )
    };
    assert!(outcome(6, 500_000, &config).unwrap() != OrderPricingOutcome::Skip);
    assert_eq!(outcome(6, 499_999, &config), Ok(OrderPricingOutcome::Skip));
    assert!(outcome(2, 50, &config).unwrap() != OrderPricingOutcome::Skip);
    assert_eq!(outcome(2, 49, &config), Ok(OrderPricingOutcome::Skip));
    config.mcycle_price_stake_token = "x".to_string();
    assert_eq!(
        outcome(6, 500_000, &config),
        Err(OrderPickerErr::UnexpectedErr(ErrContext::ParseMcyclePrice, ether_error("x")))
    );
}

#[test]
fn better_terms_stay_worth_it() {
    let picker = OrderPicker::new(6);
    let lock = |max_price: u64, cycles: u64, gas: u64, price: u64| {
        let order = order(small(max_price), small(0));
        let proof = synthetic_proof_result("x", cycles);
        picker.evaluate_lockable_order_at(&order, &proof, small(gas), small(price))
            != OrderPricingOutcome::Skip
    };
    // 100 wei for two million cycles.
    assert!(lock(110, 2_000_000, 10, 50));
    assert!(lock(111, 2_000_000, 10, 50));
    assert!(lock(110, 1_999_999, 10, 50));
    assert!(lock(110, 2_000_000, 9, 50));
    assert!(lock(110, 2_000_000, 10, 49));
    assert!(!lock(109, 2_000_000, 10, 50));
    assert!(!lock(110, 2_000_001, 10, 50));

    let prove = |reward: u64, cycles: u64, price: u64| {
        let order = order(small(0), small(reward));
        let proof = synthetic_proof_result("x", cycles);
        picker.evaluate_lock_expired_order_at(&order, &proof, small(price))
            != OrderPricingOutcome::Skip
    };
    assert!(prove(100, 2_000_000, 50));
    assert!(prove(101, 2_000_000, 50));
    assert!(prove(100, 1_999_999, 50));
    assert!(prove(100, 2_000_000, 49));
    assert!(!prove(99, 2_000_000, 50));
}

#[test]
fn plans_follow_the_kind_of_order() {
    let picker = OrderPicker::new(6);
    let mut config = config();
    let mut order = order(small(3_000_000_000), small(400_000));
    let plan = |cycles: u64, limit: u64| Ok(RunPlan { cycles, limit });
    assert_eq!(
        picker.plan_run(&order, small(0), &config, 60),
        plan(3_000_000_000, 3_000_000_000)
    );
    config.peak_prove_khz = Some(2);
    assert_eq!(picker.plan_run(&order, small(0), &config, 60), plan(3_000_000_000, 120_000));

    order.fulfillment_type = FulfillmentType::FulfillAfterLockExpire;
    config.mcycle_price = "x".to_string();
    // Half a token per million cycles.
    config.peak_prove_khz = None;
    assert_eq!(picker.plan_run(&order, small(0), &config, 60), plan(50_000_000, 800_000));
    config.peak_prove_khz = Some(2);
    assert_eq!(picker.plan_run(&order, small(0), &config, 60), plan(50_000_000, 120_000));
    config.peak_prove_khz = None;
    config.mcycle_price_stake_token = "0".to_string();
    assert_eq!(picker.plan_run(&order, small(0), &config, 60), plan(50_000_000, 50_000_000));
    assert_eq!(picker.check_run(RunPlan { cycles: 9, limit: 1 }), Some(SkipReason::ExecLimitTooLow));
    assert_eq!(picker.check_run(RunPlan { cycles: 9, limit: 2 }), None);
}

#[test]
fn rewards_pay_for_cycles() {
    assert_eq!(rewarded(small(10), small(1_000_000)), 10);
    assert_eq!(rewarded(small(10), small(3)), 3_333_333);
    assert_eq!(rewarded(small(0), small(3)), 0);
    // A price of zero is no bound, nor is a number that has no place in 64 bits.
    assert_eq!(rewarded(small(0), small(0)), u64::MAX);
    assert_eq!(rewarded(max(), small(1)), u64::MAX);
}

#[test]
fn unreadable_prices_fail_whatever_the_order() {
    let picker = OrderPicker::new(6);
    let mut config = config();
    config.mcycle_price = "x".to_string();
    config.mcycle_price_stake_token = "x".to_string();
    let nothing = synthetic_proof_result("x", 0);
    let mut late = order(small(1), small(1));
    late.request.offer.bidding_start = u64::MAX;
    let error =
        Err(OrderPickerErr::UnexpectedErr(ErrContext::ParseMcyclePrice, ether_error("x")));
    assert_eq!(picker.evaluate_lockable_order(&late, &nothing, small(0), &config), error);
    assert_eq!(picker.evaluate_lock_expired_order(&late, &nothing, &config), error);
    assert_eq!(picker.evaluate_order(&late, &nothing, small(0), true, &config), error);
    assert_eq!(picker.evaluate_order(&late, &nothing, small(0), false, &config), error);
}

#[test]
fn evaluation_follows_the_kind_of_order() {
    let picker = OrderPicker::new(6);
    let proof = synthetic_proof_result("x", 1_000_000);
    let order = order(small(1_000_000), small(500_000));
    assert!(matches!(
        picker.evaluate_order(&order, &proof, small(0), false, &config()),
        Ok(OrderPricingOutcome::Lock { .. })
    ));
    assert!(matches!(
        picker.evaluate_order(&order, &proof, small(0), true, &config()),
        Ok(OrderPricingOutcome::ProveAfterLockExpire { .. })
    ));
    assert_eq!(
        picker.evaluate_order(&order, &proof, small(1), false, &config()),
        Ok(OrderPricingOutcome::Skip)
    );
}

#[test]
fn synthetic_results_carry_the_estimate() {
    let proof = synthetic_proof_result("0x1-abc", 250_000);
    assert_eq!(proof.id, "synthetic-0x1-abc");
    assert_eq!(proof.stats.segments, 2);
    assert_eq!(proof.stats.user_cycles, 250_000);
    assert_eq!(proof.stats.total_cycles, 250_000);
    assert_eq!(proof.stats.assumption_count, 0);
}

#[test]
fn each_check_names_the_first_reason() {
    let picker = OrderPicker::new(6);
    let mut order = order(small(100), small(0));
    order.request.offer.lock_stake = small(5);
    let reason = |gas: u64, available: u64, stake: u64| {
        picker.check_funds(&order, small(gas), small(available), small(0), small(stake))
    };
    assert_eq!(reason(101, 0, 0), Some(SkipReason::GasExceedsMaxPrice));
    assert_eq!(reason(100, 99, 0), Some(SkipReason::InsufficientGas));
    assert_eq!(reason(100, 100, 4), Some(SkipReason::InsufficientStake));
    assert_eq!(reason(100, 100, 5), None);
    assert_eq!(picker.check_stake_cap(&order, small(4)), Some(SkipReason::StakeTooHigh));
    assert_eq!(picker.check_stake_cap(&order, small(5)), None);
    assert_eq!(picker.check_deadline(&order, 1_050, 0), Some(SkipReason::Expired));
    assert_eq!(picker.check_deadline(&order, 1_040, 10), Some(SkipReason::DeadlineTooClose));
    assert_eq!(picker.check_deadline(&order, 1_039, 10), None);
    assert_eq!(picker.seconds_left(&order, 1_039), 11);
    assert_eq!(picker.seconds_left(&order, 1_051), 0);
}

#[test]
fn addresses_are_listed_by_all_their_words() {
    let list = vec![HOME, Address { head: 1, middle: 2, tail: 4 }];
    assert!(is_listed(&list, HOME));
    assert!(is_listed(&list, Address { head: 1, middle: 2, tail: 4 }));
    assert!(!is_listed(&list, Address { head: 1, middle: 3, tail: 3 }));
    assert!(!is_listed(&vec![], HOME));
}

#[test]
fn every_error_has_its_code_and_message() {
    let text = |s: &str| s.to_string();
    let expected = vec![
        (
            OrderPickerErr::FetchInputErr(vec![text("no such input"), text("offline")]),
            "[B-OP-001]",
            "[B-OP-001] failed to fetch / push input: no such input",
        ),
        (
            OrderPickerErr::FetchImageErr(vec![text("no such image")]),
            "[B-OP-002]",
            "[B-OP-002] failed to fetch / push image: no such image",
        ),
        (
            OrderPickerErr::GuestPanic(text("index out of bounds")),
            "[B-OP-003]",
            "[B-OP-003] guest panicked: index out of bounds",
        ),
        (
            OrderPickerErr::RequestError(text("no image")),
            "[B-OP-004]",
            "[B-OP-004] invalid request: no image",
        ),
        (
            OrderPickerErr::RpcErr(vec![text("timeout")]),
            "[B-OP-005]",
            "[B-OP-005] RPC error: timeout",
        ),
        (
            OrderPickerErr::RpcErr(vec![text("timeout"), text("no route")]),
            "[B-OP-005]",
            "[B-OP-005] RPC error: timeout\n\nCaused by:\n    no route",
        ),
        (
            OrderPickerErr::UnexpectedErr(ErrContext::Unnamed, vec![text("oops")]),
            "[B-OP-500]",
            "[B-OP-500] Unexpected error: oops",
        ),
        (
            OrderPickerErr::UnexpectedErr(ErrContext::GasPrice, vec![text("oops")]),
            "[B-OP-500]",
            "[B-OP-500] Unexpected error: Failed to get gas price\n\nCaused by:\n    oops",
        ),
        (
            OrderPickerErr::UnexpectedErr(ErrContext::GasPrice, vec![text("a"), text("b\nc")]),
            "[B-OP-500]",
            "[B-OP-500] Unexpected error: Failed to get gas price\n\nCaused by:\n    0: a\n    1: b\n       c",
        ),
    ];
    for (error, code, message) in expected {
        assert_eq!(error.code(), code);
        assert_eq!(error.message(), message);
    }
}

#[test]
fn messages_list_all_causes() {
    for depth in [1, 2, 3, 12, 101] {
        let causes: Vec<String> = (0..depth).map(|n| format!("cause {n}\nin detail")).collect();
        let mut error = anyhow::Error::msg(causes[causes.len() - 1].clone());
        for cause in causes.iter().rev().skip(1) {
            error = error.context(cause.clone());
        }
        let chain = OrderPickerErr::RpcErr(causes.clone()).message();
        assert_eq!(chain, format!("[B-OP-005] RPC error: {}", debug_text(&error)));

        let unnamed = OrderPickerErr::UnexpectedErr(ErrContext::Unnamed, causes.clone()).message();
        assert_eq!(unnamed, format!("[B-OP-500] Unexpected error: {}", debug_text(&error)));

        let error = error.context("Failed to read config");
        let named = OrderPickerErr::UnexpectedErr(ErrContext::ReadConfig, causes).message();
        assert_eq!(named, format!("[B-OP-500] Unexpected error: {}", debug_text(&error)));
    }
}

/// An error as its `Debug` prints it, without the backtrace that may follow.
fn debug_text(error: &anyhow::Error) -> String {
    let text = format!("{error:?}");
    text.split("\n\nStack backtrace:").next().unwrap().to_string()
}

#[test]
fn every_context_has_its_words() {
    assert_eq!(
        ErrContext::CheckRequestLocked.text(),
        "Failed to check if request is locked before pricing"
    );
    assert_eq!(ErrContext::ReadConfig.text(), "Failed to read config");
    assert_eq!(ErrContext::ParseMaxStake.text(), "Failed to parse max_stake");
    assert_eq!(ErrContext::ParseMcyclePrice.text(), "Failed to parse mcycle_price");
    assert_eq!(ErrContext::GasPrice.text(), "Failed to get gas price");
    assert_eq!(ErrContext::Unnamed.text(), "");
}

#[test]
fn amounts_are_readable_unless_cut_inside_a_character() {
    assert!(is_readable("0.0000001", 6));
    assert!(is_readable("", 0));
    assert!(is_readable("1.é", 2));
    assert!(!is_readable("1.é", 1));
    assert!(is_readable("1.é", 0));
    assert!(is_readable("é.1", 0));
    assert!(is_readable("é", 0));
    // No unit has this many decimals, so nothing is cut.
    assert!(is_readable("1.é", 78));
    let long = format!("1.{}é", "0".repeat(76));
    assert!(!is_readable(&long, 77));
}

#[test]
fn what_is_readable_can_be_parsed() {
    for (amount, decimals) in [("1.é", 2u8), ("1.é", 0), ("é.1", 0), ("1.5é5", 1), ("-1.é", 78)] {
        assert!(is_readable(amount, decimals));
        let _ = alloy::primitives::utils::parse_units(amount, decimals);
    }
}

#[test]
fn orders_are_remembered_within_bounds() {
    assert_eq!(ORDER_DEDUP_CACHE_SIZE, 5000);
    assert_eq!(ORDER_DEDUP_TTL_SECS, 60 * 60);
    assert_eq!(MIN_CAPACITY_CHECK_INTERVAL_SECS, 5);
    assert_eq!(OrderPicker::new(6).stake_token_decimals, 6);
}
