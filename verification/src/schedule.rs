//! Which orders are priced when.
//!
//! Orders wait in a queue. As many are in pricing at once as the configuration
//! allows, and no order is priced twice while its id is remembered.

use std::collections::VecDeque;
use vstd::prelude::*;

use crate::config::{MarketConfig, OrderPricingPriority};
use crate::error::{ErrContext, OrderPickerErr, OrderPickerErrView};
use crate::order::OrderRequest;

verus! {

/// Something that the monitor has to react to.
#[derive(Clone, Debug, PartialEq, Eq)]
pub enum ScheduleEvent {
    /// An order came in.
    NewOrder(OrderRequest),
    /// Pricing of an order came to an end.
    TaskCompleted,
    /// It is time to look at the configuration, and this is what it says.
    ConfigRead(MarketConfig),
    /// It is time to look at the configuration, and it cannot be read.
    ConfigFault(String),
    /// The monitor is to stop.
    Cancelled,
}

/// What a look at the configuration changed: old value and new value.
#[derive(Clone, Copy, Debug, PartialEq, Eq)]
pub struct ConfigChange {
    pub capacity: Option<(usize, usize)>,
    pub priority_mode: Option<(OrderPricingPriority, OrderPricingPriority)>,
}

/// How the monitor reacts.
#[derive(Clone, Debug, PartialEq, Eq)]
pub enum ScheduleAction {
    /// Start pricing waiting orders, as far as there is capacity.
    Dispatch(ConfigChange),
    /// Wait for all running tasks, then end.
    Shutdown,
    /// End with an error.
    Fault(OrderPickerErr),
}

/// What is to be done with an order that was selected for pricing.
#[derive(Clone, Copy, Debug, PartialEq, Eq, Structural)]
pub enum Admission {
    /// Its id is remembered: drop it.
    Duplicate,
    /// Remember its id, then start pricing it.
    Start,
}

/// The order picking monitor.
#[derive(Clone, Debug, PartialEq, Eq)]
pub struct PricingSchedule {
    /// Orders that wait to be priced, the longest waiting first.
    pub pending_orders: VecDeque<OrderRequest>,
    /// How many orders are in pricing.
    pub running: usize,
    /// How many orders may be in pricing at once.
    pub capacity: usize,
    pub priority_mode: OrderPricingPriority,
}

/// The change from one value to another, if they differ.
pub open spec fn change_of<T>(before: T, after: T) -> Option<(T, T)> {
    if before == after {
        None
    } else {
        Some((before, after))
    }
}

/// Nothing has changed.
pub open spec fn no_change() -> ConfigChange {
    ConfigChange { capacity: None, priority_mode: None }
}

/// An order is started if and only if its id is not remembered.
pub open spec fn admission(remembered: bool) -> Admission {
    if remembered {
        Admission::Duplicate
    } else {
        Admission::Start
    }
}

/// The error for a configuration that the monitor cannot read.
pub open spec fn config_fault_view(cause: Seq<char>) -> OrderPickerErrView {
    OrderPickerErrView::UnexpectedErr(
        ErrContext::Unnamed,
        seq!["Failed to read config: "@ + cause],
    )
}

/// The error for a configuration that the monitor cannot read.
pub fn config_fault(cause: &str) -> (r: OrderPickerErr)
    ensures
        r@ == config_fault_view(cause@),
{
    let mut text = String::new();
    text.append("Failed to read config: ");
    text.append(cause);
    assert(text@ =~= "Failed to read config: "@ + cause@);
    let causes = vec![text];
    assert(causes.deep_view() =~= seq!["Failed to read config: "@ + cause@]);
    OrderPickerErr::UnexpectedErr(ErrContext::Unnamed, causes)
}

impl PricingSchedule {
    /// A waiting order may be started: there is one, and there is capacity.
    pub open spec fn may_dispatch(self) -> bool {
        self.pending_orders@.len() > 0 && self.running < self.capacity
    }

    /// A monitor that has just started.
    pub fn new(config: &MarketConfig) -> (r: PricingSchedule)
        ensures
            r.pending_orders@ == Seq::<OrderRequest>::empty(),
            r.running == 0,
            r.capacity == config.max_concurrent_preflights,
            r.priority_mode == config.order_pricing_priority,
    {
        PricingSchedule {
            pending_orders: VecDeque::new(),
            running: 0,
            capacity: config.max_concurrent_preflights as usize,
            priority_mode: config.order_pricing_priority,
        }
    }

    /// Takes over the configured capacity and priority mode, and says what
    /// changed.
    pub fn apply_config(&mut self, config: &MarketConfig) -> (r: ConfigChange)
        ensures
            final(self).pending_orders@ == old(self).pending_orders@,
            final(self).running == old(self).running,
            final(self).capacity == config.max_concurrent_preflights,
            final(self).priority_mode == config.order_pricing_priority,
            r == (ConfigChange {
                capacity: change_of(
                    old(self).capacity,
                    config.max_concurrent_preflights as usize,
                ),
                priority_mode: change_of(old(self).priority_mode, config.order_pricing_priority),
            }),
    {
        let new_capacity: usize = config.max_concurrent_preflights as usize;
        let new_priority_mode = config.order_pricing_priority;
        let mut change = ConfigChange { capacity: None, priority_mode: None };
        if new_capacity != self.capacity {
            change.capacity = Some((self.capacity, new_capacity));
            self.capacity = new_capacity;
        }
        if new_priority_mode != self.priority_mode {
            change.priority_mode = Some((self.priority_mode, new_priority_mode));
            self.priority_mode = new_priority_mode;
        }
        change
    }

    /// Reacts to an event.
    pub fn handle(&mut self, event: ScheduleEvent) -> (r: ScheduleAction)
        requires
            event is TaskCompleted ==> old(self).running > 0,
        ensures
            match event {
                ScheduleEvent::NewOrder(order) => {
                    &&& r == ScheduleAction::Dispatch(no_change())
                    &&& final(self).pending_orders@ == old(self).pending_orders@.push(order)
                    &&& final(self).running == old(self).running
                    &&& final(self).capacity == old(self).capacity
                    &&& final(self).priority_mode == old(self).priority_mode
                },
                ScheduleEvent::TaskCompleted => {
                    &&& r == ScheduleAction::Dispatch(no_change())
                    &&& final(self).pending_orders@ == old(self).pending_orders@
                    &&& final(self).running == old(self).running - 1
                    &&& final(self).capacity == old(self).capacity
                    &&& final(self).priority_mode == old(self).priority_mode
                },
                ScheduleEvent::ConfigRead(config) => {
                    &&& r == ScheduleAction::Dispatch(
                        ConfigChange {
                            capacity: change_of(
                                old(self).capacity,
                                config.max_concurrent_preflights as usize,
                            ),
                            priority_mode: change_of(
                                old(self).priority_mode,
                                config.order_pricing_priority,
                            ),
                        },
                    )
                    &&& final(self).pending_orders@ == old(self).pending_orders@
                    &&& final(self).running == old(self).running
                    &&& final(self).capacity == config.max_concurrent_preflights
                    &&& final(self).priority_mode == config.order_pricing_priority
                },
                ScheduleEvent::ConfigFault(cause) => {
                    &&& r matches ScheduleAction::Fault(error)
                    &&& error@ == config_fault_view(cause@)
                    &&& *final(self) == *old(self)
                },
                ScheduleEvent::Cancelled => {
                    &&& r == ScheduleAction::Shutdown
                    &&& *final(self) == *old(self)
                },
            },
    {
        match event {
            ScheduleEvent::NewOrder(order) => {
                self.pending_orders.push_back(order);
                ScheduleAction::Dispatch(ConfigChange { capacity: None, priority_mode: None })
            },
            ScheduleEvent::TaskCompleted => {
                self.running = self.running - 1;
                ScheduleAction::Dispatch(ConfigChange { capacity: None, priority_mode: None })
            },
            ScheduleEvent::ConfigRead(config) => {
                ScheduleAction::Dispatch(self.apply_config(&config))
            },
            ScheduleEvent::ConfigFault(cause) => {
                ScheduleAction::Fault(config_fault(cause.as_str()))
            },
            ScheduleEvent::Cancelled => ScheduleAction::Shutdown,
        }
    }

    /// Whether a waiting order may be started.
    pub fn wants_order(&self) -> (r: bool)
        ensures
            r == self.may_dispatch(),
            r <==> self.pending_orders@.len() >= 1 && self.running + 1 <= self.capacity,
    {
        self.pending_orders.len() > 0 && self.running < self.capacity
    }

    /// Takes the order that was selected out of the queue; the others keep
    /// their places.
    pub fn take_order(&mut self, selected: usize) -> (r: Option<OrderRequest>)
        ensures
            match r {
                Some(order) => {
                    &&& selected < old(self).pending_orders@.len()
                    &&& order == old(self).pending_orders@[selected as int]
                    &&& final(self).pending_orders@ == old(self).pending_orders@.remove(
                        selected as int,
                    )
                },
                None => {
                    &&& selected >= old(self).pending_orders@.len()
                    &&& final(self).pending_orders@ == old(self).pending_orders@
                },
            },
            final(self).running == old(self).running,
            final(self).capacity == old(self).capacity,
            final(self).priority_mode == old(self).priority_mode,
    {
        self.pending_orders.remove(selected)
    }

    /// Decides on an order that was taken out of the queue: `remembered` says
    /// whether its id is known from an earlier one. A start counts as running.
    pub fn decide(&mut self, remembered: bool) -> (r: Admission)
        requires
            old(self).running < old(self).capacity,
        ensures
            r == admission(remembered),
            final(self).running == old(self).running + (if r == Admission::Start {
                1int
            } else {
                0
            }),
            final(self).running <= final(self).capacity,
            final(self).pending_orders@ == old(self).pending_orders@,
            final(self).capacity == old(self).capacity,
            final(self).priority_mode == old(self).priority_mode,
    {
        if remembered {
            return Admission::Duplicate;
        }
        self.running = self.running + 1;
        Admission::Start
    }
}

} // verus!
