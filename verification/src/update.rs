//! What becomes of an order once it is priced.

use vstd::prelude::*;

use crate::error::{OrderPickerErr, OrderPickerErrView};
use crate::order::OrderRequest;
use crate::outcome::OrderPricingOutcome;
use crate::picker::OrderPicker;
use crate::pricing::{PricingStep, PricingStepView};

verus! {

/// What is to be done with an order whose pricing has ended.
#[derive(Clone, Copy, Debug, PartialEq, Eq, Structural)]
pub enum OrderUpdate {
    /// Send it on to be locked or proven.
    SendPriced,
    /// Put it down as skipped.
    InsertSkipped,
    /// Nothing: its pricing was cancelled.
    Leave,
}

/// An order with what pricing found about it.
pub open spec fn priced_order(
    order: OrderRequest,
    total_cycles: u64,
    target_timestamp: u64,
    expire_timestamp: u64,
) -> OrderRequest {
    OrderRequest {
        total_cycles: Some(total_cycles),
        target_timestamp: Some(target_timestamp),
        expire_timestamp: Some(expire_timestamp),
        ..order
    }
}

/// An order after pricing: only one that is taken on changes. `None` stands for
/// a pricing that was cancelled.
pub open spec fn order_updated<E>(
    order: OrderRequest,
    pricing: Option<Result<OrderPricingOutcome, E>>,
) -> OrderRequest {
    match pricing {
        Some(
            Ok(OrderPricingOutcome::Lock { total_cycles, target_timestamp_secs, expiry_secs }),
        ) => priced_order(order, total_cycles, target_timestamp_secs, expiry_secs),
        Some(
            Ok(
                OrderPricingOutcome::ProveAfterLockExpire {
                    total_cycles,
                    lock_expire_timestamp_secs,
                    expiry_secs,
                },
            ),
        ) => priced_order(order, total_cycles, lock_expire_timestamp_secs, expiry_secs),
        _ => order,
    }
}

/// What is to be done after pricing. An order that cannot be priced is skipped.
pub open spec fn update_after<E>(pricing: Option<Result<OrderPricingOutcome, E>>) -> OrderUpdate {
    match pricing {
        None => OrderUpdate::Leave,
        Some(Ok(OrderPricingOutcome::Skip)) => OrderUpdate::InsertSkipped,
        Some(Ok(_)) => OrderUpdate::SendPriced,
        Some(Err(_)) => OrderUpdate::InsertSkipped,
    }
}

impl PricingStepView {
    /// What pricing came to, if it has come to an end.
    pub open spec fn result_view(self) -> Option<Result<OrderPricingOutcome, OrderPickerErrView>> {
        match self {
            PricingStepView::Next(_) => None,
            PricingStepView::Skip(_) => Some(Ok(OrderPricingOutcome::Skip)),
            PricingStepView::Done(outcome) => Some(Ok(outcome)),
            PricingStepView::Fail(error) => Some(Err(error)),
        }
    }
}

impl PricingStep {
    /// What pricing came to, if it has come to an end.
    pub open spec fn result_view(self) -> Option<Result<OrderPricingOutcome, OrderPickerErr>> {
        match self {
            PricingStep::Next(_) => None,
            PricingStep::Skip(_) => Some(Ok(OrderPricingOutcome::Skip)),
            PricingStep::Done(outcome) => Some(Ok(outcome)),
            PricingStep::Fail(error) => Some(Err(error)),
        }
    }

    /// What pricing came to, if it has come to an end.
    pub fn result(self) -> (r: Option<Result<OrderPricingOutcome, OrderPickerErr>>)
        ensures
            r == self.result_view(),
    {
        match self {
            PricingStep::Next(_) => None,
            PricingStep::Skip(_) => Some(Ok(OrderPricingOutcome::Skip)),
            PricingStep::Done(outcome) => Some(Ok(outcome)),
            PricingStep::Fail(error) => Some(Err(error)),
        }
    }
}

impl OrderPicker {
    /// Writes what pricing found into the order, and says what is to be done
    /// with it. `None` stands for a pricing that was cancelled.
    pub fn price_order_and_update_state(
        &self,
        order: &mut OrderRequest,
        pricing: Option<Result<OrderPricingOutcome, OrderPickerErr>>,
    ) -> (r: OrderUpdate)
        ensures
            r == update_after(pricing),
            *final(order) == order_updated(*old(order), pricing),
    {
        match pricing {
            Some(
                Ok(OrderPricingOutcome::Lock { total_cycles, target_timestamp_secs, expiry_secs }),
            ) => {
                order.total_cycles = Some(total_cycles);
                order.target_timestamp = Some(target_timestamp_secs);
                order.expire_timestamp = Some(expiry_secs);
                OrderUpdate::SendPriced
            },
            Some(
                Ok(
                    OrderPricingOutcome::ProveAfterLockExpire {
                        total_cycles,
                        lock_expire_timestamp_secs,
                        expiry_secs,
                    },
                ),
            ) => {
                order.total_cycles = Some(total_cycles);
                order.target_timestamp = Some(lock_expire_timestamp_secs);
                order.expire_timestamp = Some(expiry_secs);
                OrderUpdate::SendPriced
            },
            Some(Ok(OrderPricingOutcome::Skip)) => OrderUpdate::InsertSkipped,
            Some(Err(_)) => OrderUpdate::InsertSkipped,
            None => OrderUpdate::Leave,
        }
    }

    /// Whether an order counts as priced once its update has been tried:
    /// `delivered` says whether that worked.
    pub fn counts_as_priced(&self, update: OrderUpdate, delivered: bool) -> (r: bool)
        ensures
            r == (update == OrderUpdate::SendPriced && delivered),
    {
        match update {
            OrderUpdate::SendPriced => delivered,
            OrderUpdate::InsertSkipped => false,
            OrderUpdate::Leave => false,
        }
    }
}

} // verus!
