//! The message that reports a trade against a resting order.

use vstd::prelude::*;
use crate::context::{Context, Registry};
use crate::cursor::{Cursor, Input};
use crate::error::DecodeError;
use crate::field::{
    kind_at, price_at, printable_at, read_kind, read_nanoseconds, read_price, read_printable,
    read_refno, read_shares, refno_at, shares_at, timestamp_at, KIND_LEN, PRICE_LEN,
    PRINTABLE_LEN, REFNO_LEN, SHARES_LEN, TIMESTAMP_LEN,
};
use crate::message::{framed, Event, IntoOrderMessage, OrderMessage, ReadMessage};
use crate::order::Side;
use crate::version::Version;

verus! {

/// Bytes of the match number, which is passed over.
pub const MATCH_NUMBER_LEN: usize = 8;

/// Where the reference number of an execute message begins, counted from its
/// timestamp.
pub const EXECUTE_REFNO_AT: usize = TIMESTAMP_LEN;

/// Where the executed shares of an execute message begin, counted from its
/// timestamp.
pub const EXECUTE_SHARES_AT: usize = EXECUTE_REFNO_AT + REFNO_LEN;

/// Where the match number of an execute message begins, counted from its
/// timestamp.
pub const EXECUTE_MATCH_AT: usize = EXECUTE_SHARES_AT + SHARES_LEN;

/// Bytes of an execute message behind its kind tag and header: timestamp,
/// reference number, executed shares, match number.
pub const EXECUTE_BODY_LEN: usize = EXECUTE_MATCH_AT + MATCH_NUMBER_LEN;

/// Where the printable flag of an execution with a price begins, counted from
/// its timestamp.
pub const EXECUTE_PRINTABLE_AT: usize = EXECUTE_BODY_LEN;

/// Where the price of an execution with a price begins, counted from its
/// timestamp.
pub const EXECUTE_PRICE_AT: usize = EXECUTE_PRINTABLE_AT + PRINTABLE_LEN;

/// Bytes that an execution with a price adds at the end: printable flag,
/// execution price.
pub const EXECUTE_PRICE_LEN: usize = PRINTABLE_LEN + PRICE_LEN;

/// The kind tag of an execution that carries its own price.
pub const EXECUTED_WITH_PRICE: char = 'C';

/// Part or all of an order was executed.
#[derive(Debug)]
pub struct ExecuteOrder {
    nanoseconds: u64,
    kind: char,
    ticker: String,
    side: Side,
    price: u32,
    shares: u32,
    refno: u64,
    printable: Option<bool>,
    execution_price: Option<u32>,
}

impl View for ExecuteOrder {
    type V = Event;

    closed spec fn view(&self) -> Event {
        Event {
            nanoseconds: self.nanoseconds,
            kind: self.kind,
            ticker: self.ticker@,
            side: self.side,
            price: self.price,
            shares: self.shares,
            refno: self.refno,
            from_replace: None,
            mpid: None,
            printable: self.printable,
            execution_price: self.execution_price,
        }
    }
}

impl ExecuteOrder {
    /// Whether the execute message at the input's position carries a price of
    /// its own, which its kind tag tells.
    pub open spec fn wire_priced(input: Input) -> bool {
        kind_at(input.bytes, input.position as int) == EXECUTED_WITH_PRICE
    }

    /// The reference number that the execute message at the input's position
    /// names.
    pub open spec fn wire_refno(input: Input, version: Version) -> u64 {
        refno_at(input.bytes, input.position + KIND_LEN + version.header_len() + EXECUTE_REFNO_AT)
    }

    /// The number of shares that the execute message at the input's position
    /// trades.
    pub open spec fn wire_shares(input: Input, version: Version) -> u32 {
        shares_at(
            input.bytes,
            input.position + KIND_LEN + version.header_len() + EXECUTE_SHARES_AT,
        )
    }

    /// Nanoseconds since midnight at which the event happened.
    pub fn nanoseconds(&self) -> (value: &u64)
        ensures
            *value == self@.nanoseconds,
    {
        &self.nanoseconds
    }

    /// The kind tag of the event.
    pub fn kind(&self) -> (value: &char)
        ensures
            *value == self@.kind,
    {
        &self.kind
    }

    /// The symbol of the order.
    pub fn ticker(&self) -> (value: &String)
        ensures
            value@ == self@.ticker,
    {
        &self.ticker
    }

    /// The side of the order.
    pub fn side(&self) -> (value: &Side)
        ensures
            *value == self@.side,
    {
        &self.side
    }

    /// The price at which the order rested, in ten-thousandths.
    pub fn price(&self) -> (value: &u32)
        ensures
            *value == self@.price,
    {
        &self.price
    }

    /// The number of shares that were executed.
    pub fn shares(&self) -> (value: &u32)
        ensures
            *value == self@.shares,
    {
        &self.shares
    }

    /// The reference number of the order.
    pub fn refno(&self) -> (value: &u64)
        ensures
            *value == self@.refno,
    {
        &self.refno
    }

    /// Whether the execution is printable, for an execution with a price.
    pub fn printable(&self) -> (value: &Option<bool>)
        ensures
            *value == self@.printable,
    {
        &self.printable
    }

    /// The price of the execution, for an execution with a price.
    pub fn execution_price(&self) -> (value: &Option<u32>)
        ensures
            *value == self@.execution_price,
    {
        &self.execution_price
    }
}

impl IntoOrderMessage for ExecuteOrder {
    fn into_order_message(self, date: String) -> (record: OrderMessage)
        ensures
            record@.from_replace is None,
            record@.mpid is None,
    {
        OrderMessage {
            date,
            nanoseconds: self.nanoseconds,
            kind: self.kind,
            ticker: self.ticker,
            side: self.side,
            price: self.price,
            shares: self.shares,
            refno: self.refno,
            from_replace: None,
            mpid: None,
            printable: self.printable,
            execution_price: self.execution_price,
        }
    }
}

impl ReadMessage for ExecuteOrder {
    open spec fn wire_len(input: Input, version: Version) -> nat {
        let plain = KIND_LEN + version.header_len() + EXECUTE_BODY_LEN;
        if Self::wire_priced(input) {
            (plain + EXECUTE_PRICE_LEN) as nat
        } else {
            plain as nat
        }
    }

    open spec fn frame(input: Input, version: Version) -> Result<nat, DecodeError> {
        framed(input, KIND_LEN as nat, Self::wire_len(input, version))
    }

    fn measure(buffer: &Cursor, version: &Version) -> (len: Result<usize, DecodeError>) {
        let mut input = *buffer;
        let kind = read_kind(&mut input)?;
        let plain = KIND_LEN + version.header_len() + EXECUTE_BODY_LEN;
        let len = if kind == EXECUTED_WITH_PRICE {
            plain + EXECUTE_PRICE_LEN
        } else {
            plain
        };
        buffer.require(len)?;
        Ok(len)
    }

    open spec fn decoded(input: Input, version: Version, registry: Registry) -> Result<
        (Event, Registry),
        DecodeError,
    > {
        let kind = kind_at(input.bytes, input.position as int);
        let body = input.position + KIND_LEN + version.header_len();
        let refno = Self::wire_refno(input, version);
        let shares = Self::wire_shares(input, version);
        if let Err(e) = Self::frame(input, version) {
            Err(e)
        } else if !registry.orders.contains_key(refno) {
            Err(DecodeError::UnknownOrder { refno })
        } else if shares > registry.orders[refno].shares {
            Err(
                DecodeError::SharesExceeded {
                    refno,
                    remaining: registry.orders[refno].shares,
                    requested: shares,
                },
            )
        } else {
            let order = registry.orders[refno];
            let priced = Self::wire_priced(input);
            let event = Event {
                nanoseconds: version.nanoseconds(registry.clock, timestamp_at(input.bytes, body)),
                kind,
                ticker: order.ticker,
                side: order.side,
                price: order.price,
                shares,
                refno,
                from_replace: None,
                mpid: None,
                printable: if priced {
                    Some(printable_at(input.bytes, body + EXECUTE_PRINTABLE_AT))
                } else {
                    None
                },
                execution_price: if priced {
                    Some(price_at(input.bytes, body + EXECUTE_PRICE_AT))
                } else {
                    None
                },
            };
            Ok((event, registry.reduced(refno, shares)))
        }
    }

    fn read(buffer: &mut Cursor, version: &Version, context: &mut Context) -> (message: Result<
        Self,
        DecodeError,
    >) {
        Self::measure(buffer, version)?;
        let mut input = *buffer;
        let kind = read_kind(&mut input)?;
        let priced = kind == EXECUTED_WITH_PRICE;
        input.skip(version.header_len())?;
        let nanoseconds = read_nanoseconds(&mut input, version, context.clock())?;
        let refno = read_refno(&mut input)?;
        let shares = read_shares(&mut input)?;
        input.skip(MATCH_NUMBER_LEN)?;
        let (printable, execution_price) = if priced {
            let printable = read_printable(&mut input)?;
            let execution_price = read_price(&mut input)?;
            (Some(printable), Some(execution_price))
        } else {
            (None, None)
        };
        let order = context.reduce(refno, shares)?;
        *buffer = input;
        Ok(
            ExecuteOrder {
                nanoseconds,
                kind,
                ticker: order.ticker,
                side: order.side,
                price: order.price,
                shares,
                refno,
                printable,
                execution_price,
            },
        )
    }
}

} // verus!
