//! The registry of active orders that one feed session carries along.

use std::collections::HashMap;
use vstd::prelude::*;
use crate::error::DecodeError;
use crate::order::{OrderModel, OrderState};

verus! {

/// The registry as a plain value: the active orders by reference number, and
/// the clock in whole seconds.
#[verifier::ext_equal]
pub struct Registry {
    pub orders: Map<u64, OrderModel>,
    pub clock: u32,
}

impl Registry {
    /// The registry after an order was opened under `refno`; an entry that was
    /// there before is overwritten.
    pub open spec fn opened(self, refno: u64, order: OrderModel) -> Registry {
        Registry { orders: self.orders.insert(refno, order), clock: self.clock }
    }

    /// The registry after `shares` were taken from the order under `refno`.
    pub open spec fn reduced(self, refno: u64, shares: u32) -> Registry {
        let order = self.orders[refno];
        Registry {
            orders: self.orders.insert(
                refno,
                OrderModel { shares: (order.shares - shares) as u32, ..order },
            ),
            clock: self.clock,
        }
    }

    /// The registry after the order under `refno` was closed.
    pub open spec fn closed(self, refno: u64) -> Registry {
        Registry { orders: self.orders.remove(refno), clock: self.clock }
    }

    /// The registry after the order under `old_refno` gave way to one under
    /// `new_refno` with the same ticker and side and with `shares` and `price`.
    pub open spec fn replaced(
        self,
        old_refno: u64,
        new_refno: u64,
        shares: u32,
        price: u32,
    ) -> Registry {
        let order = self.orders[old_refno];
        Registry {
            orders: self.orders.remove(old_refno).insert(
                new_refno,
                OrderModel { shares, price, ..order },
            ),
            clock: self.clock,
        }
    }
}

/// The mutable state of one feed session: the orders that are active, by
/// reference number, and the clock.
#[derive(Debug)]
pub struct Context {
    active_orders: HashMap<u64, OrderState>,
    clock: u32,
}

impl View for Context {
    type V = Registry;

    closed spec fn view(&self) -> Registry {
        Registry {
            orders: Map::new(
                |refno: u64| self.active_orders@.contains_key(refno),
                |refno: u64| self.active_orders@[refno]@,
            ),
            clock: self.clock,
        }
    }
}

impl Context {
    /// A registry without orders, its clock at zero.
    pub fn new() -> (context: Context)
        ensures
            context@ == (Registry { orders: Map::empty(), clock: 0 }),
    {
        Context { active_orders: HashMap::new(), clock: 0 }
    }

    /// The clock, in whole seconds since midnight.
    pub fn clock(&self) -> (seconds: u32)
        ensures
            seconds == self@.clock,
    {
        self.clock
    }

    /// Sets the clock to `seconds` since midnight and leaves the orders alone.
    pub fn set_clock(&mut self, seconds: u32)
        ensures
            final(self)@ == (Registry { orders: old(self)@.orders, clock: seconds }),
    {
        self.clock = seconds;
    }

    /// Looks an active order up.
    pub fn get(&self, refno: u64) -> (found: Option<&OrderState>)
        ensures
            match found {
                Some(order) => self@.orders.contains_key(refno) && order@ == self@.orders[refno],
                None => !self@.orders.contains_key(refno),
            },
    {
        broadcast use vstd::std_specs::hash::group_hash_axioms;
        self.active_orders.get(&refno)
    }

    /// Opens an order under `refno`, overwriting an entry that was there.
    pub fn insert(&mut self, refno: u64, order: OrderState)
        ensures
            final(self)@ == old(self)@.opened(refno, order@),
    {
        broadcast use vstd::std_specs::hash::group_hash_axioms;
        self.active_orders.insert(refno, order);
    }

    /// Closes the order under `refno` and hands its last state out.
    pub fn remove(&mut self, refno: u64) -> (removed: Result<OrderState, DecodeError>)
        ensures
            match removed {
                Ok(order) => {
                    &&& old(self)@.orders.contains_key(refno)
                    &&& order@ == old(self)@.orders[refno]
                    &&& final(self)@ == old(self)@.closed(refno)
                },
                Err(e) => {
                    &&& !old(self)@.orders.contains_key(refno)
                    &&& e == (DecodeError::UnknownOrder { refno })
                    &&& final(self)@ == old(self)@
                },
            },
    {
        broadcast use vstd::std_specs::hash::group_hash_axioms;
        match self.active_orders.remove(&refno) {
            Some(order) => Ok(order),
            None => Err(DecodeError::UnknownOrder { refno }),
        }
    }

    /// Closes the order under `old_refno` and opens one under `new_refno` that
    /// keeps its ticker and side and has `shares` and `price`, in one step.
    /// Hands out the state of the order that was closed.
    pub fn replace(&mut self, old_refno: u64, new_refno: u64, shares: u32, price: u32) -> (replaced:
        Result<OrderState, DecodeError>)
        ensures
            match replaced {
                Ok(order) => {
                    &&& old(self)@.orders.contains_key(old_refno)
                    &&& order@ == old(self)@.orders[old_refno]
                    &&& final(self)@ == old(self)@.replaced(old_refno, new_refno, shares, price)
                },
                Err(e) => {
                    &&& !old(self)@.orders.contains_key(old_refno)
                    &&& e == (DecodeError::UnknownOrder { refno: old_refno })
                    &&& final(self)@ == old(self)@
                },
            },
    {
        broadcast use vstd::std_specs::hash::group_hash_axioms;
        match self.active_orders.remove(&old_refno) {
            Some(order) => {
                let successor = OrderState {
                    side: order.side,
                    shares,
                    ticker: order.ticker.clone(),
                    price,
                };
                self.active_orders.insert(new_refno, successor);
                Ok(order)
            },
            None => Err(DecodeError::UnknownOrder { refno: old_refno }),
        }
    }

    /// Takes `shares` from the order under `refno`, which stays active, and
    /// hands out its state after the reduction.
    pub fn reduce(&mut self, refno: u64, shares: u32) -> (reduced: Result<OrderState, DecodeError>)
        ensures
            match reduced {
                Ok(order) => {
                    &&& old(self)@.orders.contains_key(refno)
                    &&& shares <= old(self)@.orders[refno].shares
                    &&& final(self)@ == old(self)@.reduced(refno, shares)
                    &&& order@ == final(self)@.orders[refno]
                },
                Err(e) => {
                    &&& final(self)@ == old(self)@
                    &&& if old(self)@.orders.contains_key(refno) {
                        &&& shares > old(self)@.orders[refno].shares
                        &&& e == (DecodeError::SharesExceeded {
                            refno,
                            remaining: old(self)@.orders[refno].shares,
                            requested: shares,
                        })
                    } else {
                        e == (DecodeError::UnknownOrder { refno })
                    }
                },
            },
    {
        broadcast use vstd::std_specs::hash::group_hash_axioms;
        let (side, remaining, ticker, price) = match self.active_orders.get(&refno) {
            Some(order) => (order.side, order.shares, order.ticker.clone(), order.price),
            None => {
                return Err(DecodeError::UnknownOrder { refno });
            },
        };
        if shares > remaining {
            return Err(DecodeError::SharesExceeded { refno, remaining, requested: shares });
        }
        let left: u32 = remaining - shares;
        let kept = OrderState { side, shares: left, ticker: ticker.clone(), price };
        self.active_orders.insert(refno, kept);
        Ok(OrderState { side, shares: left, ticker, price })
    }
}

} // verus!
