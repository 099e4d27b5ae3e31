//! A resting order as the registry keeps it.

use vstd::prelude::*;

verus! {

/// The side of the book an order rests on.
#[derive(Clone, Copy, Debug, PartialEq, Eq, Structural)]
pub enum Side {
    Buy,
    Sell,
}

/// The current state of one resting order.
#[derive(Clone, Debug, PartialEq, Eq)]
pub struct OrderState {
    pub side: Side,
    /// Open quantity that is left.
    pub shares: u32,
    pub ticker: String,
    /// Fixed-point price with four implied decimals.
    pub price: u32,
}

/// An order's state as a plain value, the ticker as its characters.
pub struct OrderModel {
    pub side: Side,
    pub shares: u32,
    pub ticker: Seq<char>,
    pub price: u32,
}

impl View for OrderState {
    type V = OrderModel;

    open spec fn view(&self) -> OrderModel {
        OrderModel { side: self.side, shares: self.shares, ticker: self.ticker@, price: self.price }
    }
}

} // verus!
