//! The message that takes a resting order off the book.

use vstd::prelude::*;
use crate::context::{Context, Registry};
use crate::cursor::{Cursor, Input};
use crate::error::DecodeError;
use crate::field::{
    read_nanoseconds, read_refno, refno_at, timestamp_at, REFNO_LEN, TIMESTAMP_LEN,
};
use crate::message::{framed, Event, IntoOrderMessage, OrderMessage, ReadMessage};
use crate::order::Side;
use crate::version::Version;

verus! {

/// Where the reference number of a delete message begins, counted from its
/// timestamp.
pub const DELETE_REFNO_AT: usize = TIMESTAMP_LEN;

/// Bytes of a delete message behind its header: timestamp, reference number.
pub const DELETE_BODY_LEN: usize = DELETE_REFNO_AT + REFNO_LEN;

/// An order was deleted from the book.
#[derive(Debug)]
pub struct DeleteOrder {
    nanoseconds: u64,
    kind: char,
    ticker: String,
    side: Side,
    price: u32,
    shares: u32,
    refno: u64,
    from_replace: Option<bool>,
}

impl View for DeleteOrder {
    type V = Event;

    closed spec fn view(&self) -> Event {
        Event {
            nanoseconds: self.nanoseconds,
            kind: self.kind,
            ticker: self.ticker@,
            side: self.side,
            price: self.price,
            shares: self.shares,
            refno: self.refno,
            from_replace: self.from_replace,
            mpid: None,
            printable: None,
            execution_price: None,
        }
    }
}

impl DeleteOrder {
    /// The reference number that the delete message at the input's position
    /// names.
    pub open spec fn wire_refno(input: Input, version: Version) -> u64 {
        refno_at(input.bytes, input.position + version.header_len() + DELETE_REFNO_AT)
    }

    /// Puts a delete event together from its parts.
    pub fn new(
        nanoseconds: u64,
        kind: char,
        ticker: String,
        side: Side,
        price: u32,
        shares: u32,
        refno: u64,
        from_replace: Option<bool>,
    ) -> (event: DeleteOrder)
        ensures
            event@ == (Event {
                nanoseconds,
                kind,
                ticker: ticker@,
                side,
                price,
                shares,
                refno,
                from_replace,
                mpid: None,
                printable: None,
                execution_price: None,
            }),
    {
        DeleteOrder { nanoseconds, kind, ticker, side, price, shares, refno, from_replace }
    }

    /// Nanoseconds since midnight at which the event happened.
    pub fn nanoseconds(&self) -> (value: &u64)
        ensures
            *value == self@.nanoseconds,
    {
        &self.nanoseconds
    }

    /// The kind tag of the event.
    pub fn kind(&self) -> (value: &char)
        ensures
            *value == self@.kind,
    {
        &self.kind
    }

    /// The symbol of the order.
    pub fn ticker(&self) -> (value: &String)
        ensures
            value@ == self@.ticker,
    {
        &self.ticker
    }

    /// The side of the order.
    pub fn side(&self) -> (value: &Side)
        ensures
            *value == self@.side,
    {
        &self.side
    }

    /// The price of the order, in ten-thousandths.
    pub fn price(&self) -> (value: &u32)
        ensures
            *value == self@.price,
    {
        &self.price
    }

    /// The number of shares the order had left.
    pub fn shares(&self) -> (value: &u32)
        ensures
            *value == self@.shares,
    {
        &self.shares
    }

    /// The reference number of the order.
    pub fn refno(&self) -> (value: &u64)
        ensures
            *value == self@.refno,
    {
        &self.refno
    }

    /// Whether the event comes from a replace, where that is known.
    pub fn from_replace(&self) -> (value: &Option<bool>)
        ensures
            *value == self@.from_replace,
    {
        &self.from_replace
    }
}

impl IntoOrderMessage for DeleteOrder {
    fn into_order_message(self, date: String) -> (record: OrderMessage)
        ensures
            record@.mpid is None,
            record@.printable is None,
            record@.execution_price is None,
    {
        OrderMessage {
            date,
            nanoseconds: self.nanoseconds,
            kind: self.kind,
            ticker: self.ticker,
            side: self.side,
            price: self.price,
            shares: self.shares,
            refno: self.refno,
            from_replace: self.from_replace,
            mpid: None,
            printable: None,
            execution_price: None,
        }
    }
}

impl ReadMessage for DeleteOrder {
    open spec fn wire_len(input: Input, version: Version) -> nat {
        (version.header_len() + DELETE_BODY_LEN) as nat
    }

    open spec fn frame(input: Input, version: Version) -> Result<nat, DecodeError> {
        framed(input, 0, Self::wire_len(input, version))
    }

    fn measure(buffer: &Cursor, version: &Version) -> (len: Result<usize, DecodeError>) {
        let len = version.header_len() + DELETE_BODY_LEN;
        buffer.require(len)?;
        Ok(len)
    }

    open spec fn decoded(input: Input, version: Version, registry: Registry) -> Result<
        (Event, Registry),
        DecodeError,
    > {
        let body = input.position + version.header_len();
        let refno = Self::wire_refno(input, version);
        if let Err(e) = Self::frame(input, version) {
            Err(e)
        } else if !registry.orders.contains_key(refno) {
            Err(DecodeError::UnknownOrder { refno })
        } else {
            let order = registry.orders[refno];
            let event = Event {
                nanoseconds: version.nanoseconds(registry.clock, timestamp_at(input.bytes, body)),
                kind: 'D',
                ticker: order.ticker,
                side: order.side,
                price: order.price,
                shares: order.shares,
                refno,
                from_replace: None,
                mpid: None,
                printable: None,
                execution_price: None,
            };
            Ok((event, registry.closed(refno)))
        }
    }

    fn read(buffer: &mut Cursor, version: &Version, context: &mut Context) -> (message: Result<
        Self,
        DecodeError,
    >) {
        Self::measure(buffer, version)?;
        let mut input = *buffer;
        input.skip(version.header_len())?;
        let nanoseconds = read_nanoseconds(&mut input, version, context.clock())?;
        let refno = read_refno(&mut input)?;
        let order = context.remove(refno)?;
        *buffer = input;
        Ok(
            DeleteOrder {
                nanoseconds,
                kind: 'D',
                ticker: order.ticker,
                side: order.side,
                price: order.price,
                shares: order.shares,
                refno,
                from_replace: None,
            },
        )
    }
}

} // verus!
