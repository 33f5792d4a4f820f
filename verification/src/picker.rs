//! The order picker.

use vstd::prelude::*;

verus! {

/// How many order ids are remembered so that no order is priced twice.
pub const ORDER_DEDUP_CACHE_SIZE: u64 = 5000;

/// For how many seconds an order id is remembered.
pub const ORDER_DEDUP_TTL_SECS: u64 = 3600;

/// How many seconds pass between two looks at the configured capacity.
pub const MIN_CAPACITY_CHECK_INTERVAL_SECS: u64 = 5;

/// Prices orders: decides which ones to take on, and when to lock them.
#[derive(Clone, Copy, Debug, PartialEq, Eq, Structural)]
pub struct OrderPicker {
    /// The number of decimals of the stake token.
    pub stake_token_decimals: u8,
}

impl OrderPicker {
    /// A picker for a market whose stake token has this many decimals.
    pub fn new(stake_token_decimals: u8) -> (r: OrderPicker)
        ensures
            r.stake_token_decimals == stake_token_decimals,
    {
        OrderPicker { stake_token_decimals }
    }
}

/// The number of cycles that can be proven in `time_seconds` at `prove_khz`,
/// no more than `u64::MAX`.
pub open spec fn max_cycles_for_time(prove_khz: u64, time_seconds: u64) -> u64 {
    if prove_khz * 1_000 * time_seconds <= u64::MAX {
        (prove_khz * 1_000 * time_seconds) as u64
    } else {
        u64::MAX
    }
}

/// The most cycles that can be proven within a period of time, at a proving
/// rate in kHz.
pub fn calculate_max_cycles_for_time(prove_khz: u64, time_seconds: u64) -> (r: u64)
    ensures
        r == max_cycles_for_time(prove_khz, time_seconds),
{
    let per_second: u64 = match prove_khz.checked_mul(1_000) {
        Some(cycles) => cycles,
        None => u64::MAX,
    };
    proof {
        let exact = prove_khz * 1_000;
        if exact > u64::MAX {
            assert(time_seconds > 0 ==> exact * time_seconds > u64::MAX) by (nonlinear_arith)
                requires
                    exact > u64::MAX,
            ;
            assert(time_seconds > 0 ==> u64::MAX * time_seconds >= u64::MAX) by (nonlinear_arith);
            assert(time_seconds == 0 ==> exact * time_seconds == 0 && u64::MAX * time_seconds == 0)
                by (nonlinear_arith);
        }
    }
    match per_second.checked_mul(time_seconds) {
        Some(cycles) => cycles,
        None => u64::MAX,
    }
}

} // verus!
