//! The message that takes part of a resting order's shares away.

use vstd::prelude::*;
use crate::context::{Context, Registry};
use crate::cursor::{Cursor, Input};
use crate::error::DecodeError;
use crate::field::{
    kind_at, read_kind, read_nanoseconds, read_refno, read_shares, refno_at, shares_at,
    timestamp_at, KIND_LEN, REFNO_LEN, SHARES_LEN, TIMESTAMP_LEN,
};
use crate::message::{framed, Event, IntoOrderMessage, OrderMessage, ReadMessage};
use crate::order::Side;
use crate::version::Version;

verus! {

/// Where the reference number of a cancel message begins, counted from its
/// timestamp.
pub const CANCEL_REFNO_AT: usize = TIMESTAMP_LEN;

/// Where the cancelled shares of a cancel message begin, counted from its
/// timestamp.
pub const CANCEL_SHARES_AT: usize = CANCEL_REFNO_AT + REFNO_LEN;

/// Bytes of a cancel message behind its kind tag and header: timestamp,
/// reference number, cancelled shares.
pub const CANCEL_BODY_LEN: usize = CANCEL_SHARES_AT + SHARES_LEN;

/// Part of an order was cancelled; the order stays on the book.
#[derive(Debug)]
pub struct CancelOrder {
    nanoseconds: u64,
    kind: char,
    ticker: String,
    side: Side,
    price: u32,
    shares: u32,
    refno: u64,
}

impl View for CancelOrder {
    type V = Event;

    closed spec fn view(&self) -> Event {
        Event {
            nanoseconds: self.nanoseconds,
            kind: self.kind,
            ticker: self.ticker@,
            side: self.side,
            price: self.price,
            shares: self.shares,
            refno: self.refno,
            from_replace: None,
            mpid: None,
            printable: None,
            execution_price: None,
        }
    }
}

impl CancelOrder {
    /// The reference number that the cancel message at the input's position
    /// names.
    pub open spec fn wire_refno(input: Input, version: Version) -> u64 {
        refno_at(input.bytes, input.position + KIND_LEN + version.header_len() + CANCEL_REFNO_AT)
    }

    /// The number of shares that the cancel message at the input's position
    /// takes away.
    pub open spec fn wire_shares(input: Input, version: Version) -> u32 {
        shares_at(
            input.bytes,
            input.position + KIND_LEN + version.header_len() + CANCEL_SHARES_AT,
        )
    }

    /// Nanoseconds since midnight at which the event happened.
    pub fn nanoseconds(&self) -> (value: &u64)
        ensures
            *value == self@.nanoseconds,
    {
        &self.nanoseconds
    }

    /// The kind tag of the event.
    pub fn kind(&self) -> (value: &char)
        ensures
            *value == self@.kind,
    {
        &self.kind
    }

    /// The symbol of the order.
    pub fn ticker(&self) -> (value: &String)
        ensures
            value@ == self@.ticker,
    {
        &self.ticker
    }

    /// The side of the order.
    pub fn side(&self) -> (value: &Side)
        ensures
            *value == self@.side,
    {
        &self.side
    }

    /// The price at which the order rests, in ten-thousandths.
    pub fn price(&self) -> (value: &u32)
        ensures
            *value == self@.price,
    {
        &self.price
    }

    /// The number of shares that were cancelled.
    pub fn shares(&self) -> (value: &u32)
        ensures
            *value == self@.shares,
    {
        &self.shares
    }

    /// The reference number of the order.
    pub fn refno(&self) -> (value: &u64)
        ensures
            *value == self@.refno,
    {
        &self.refno
    }
}

impl IntoOrderMessage for CancelOrder {
    fn into_order_message(self, date: String) -> (record: OrderMessage)
        ensures
            record@.from_replace is None,
            record@.mpid is None,
            record@.printable is None,
            record@.execution_price is None,
    {
        OrderMessage {
            date,
            nanoseconds: self.nanoseconds,
            kind: self.kind,
            ticker: self.ticker,
            side: self.side,
            price: self.price,
            shares: self.shares,
            refno: self.refno,
            from_replace: None,
            mpid: None,
            printable: None,
            execution_price: None,
        }
    }
}

impl ReadMessage for CancelOrder {
    open spec fn wire_len(input: Input, version: Version) -> nat {
        (KIND_LEN + version.header_len() + CANCEL_BODY_LEN) as nat
    }

    open spec fn frame(input: Input, version: Version) -> Result<nat, DecodeError> {
        framed(input, 0, Self::wire_len(input, version))
    }

    fn measure(buffer: &Cursor, version: &Version) -> (len: Result<usize, DecodeError>) {
        let len = KIND_LEN + version.header_len() + CANCEL_BODY_LEN;
        buffer.require(len)?;
        Ok(len)
    }

    open spec fn decoded(input: Input, version: Version, registry: Registry) -> Result<
        (Event, Registry),
        DecodeError,
    > {
        let body = input.position + KIND_LEN + version.header_len();
        let refno = Self::wire_refno(input, version);
        let shares = Self::wire_shares(input, version);
        if let Err(e) = Self::frame(input, version) {
            Err(e)
        } else if !registry.orders.contains_key(refno) {
            Err(DecodeError::UnknownOrder { refno })
        } else if shares > registry.orders[refno].shares {
            Err(
                DecodeError::SharesExceeded {
                    refno,
                    remaining: registry.orders[refno].shares,
                    requested: shares,
                },
            )
        } else {
            let order = registry.orders[refno];
            let event = Event {
                nanoseconds: version.nanoseconds(registry.clock, timestamp_at(input.bytes, body)),
                kind: kind_at(input.bytes, input.position as int),
                ticker: order.ticker,
                side: order.side,
                price: order.price,
                shares,
                refno,
                from_replace: None,
                mpid: None,
                printable: None,
                execution_price: None,
            };
            Ok((event, registry.reduced(refno, shares)))
        }
    }

    fn read(buffer: &mut Cursor, version: &Version, context: &mut Context) -> (message: Result<
        Self,
        DecodeError,
    >) {
        Self::measure(buffer, version)?;
        let mut input = *buffer;
        let kind = read_kind(&mut input)?;
        input.skip(version.header_len())?;
        let nanoseconds = read_nanoseconds(&mut input, version, context.clock())?;
        let refno = read_refno(&mut input)?;
        let shares = read_shares(&mut input)?;
        let order = context.reduce(refno, shares)?;
        *buffer = input;
        Ok(
            CancelOrder {
                nanoseconds,
                kind,
                ticker: order.ticker,
                side: order.side,
                price: order.price,
                shares,
                refno,
            },
        )
    }
}

} // verus!
