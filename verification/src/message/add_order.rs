//! The message that opens a resting order.

use vstd::prelude::*;
use crate::context::{Context, Registry};
use crate::cursor::{Cursor, Input};
use crate::error::DecodeError;
use crate::field::{
    price_at, read_nanoseconds, read_price, read_refno, read_shares, read_side, read_ticker,
    refno_at, shares_at, side_of, ticker_at, timestamp_at, PRICE_LEN, REFNO_LEN, SHARES_LEN,
    SIDE_LEN, TICKER_LEN, TIMESTAMP_LEN,
};
use crate::message::{framed, text_of, Event, IntoOrderMessage, OrderMessage, ReadMessage};
use crate::order::{OrderState, Side};
use crate::version::Version;

verus! {

/// Where the reference number of an add message begins, counted from its
/// timestamp.
pub const ADD_REFNO_AT: usize = TIMESTAMP_LEN;

/// Where the side of an add message begins, counted from its timestamp.
pub const ADD_SIDE_AT: usize = ADD_REFNO_AT + REFNO_LEN;

/// Where the shares of an add message begin, counted from its timestamp.
pub const ADD_SHARES_AT: usize = ADD_SIDE_AT + SIDE_LEN;

/// Where the ticker of an add message begins, counted from its timestamp.
pub const ADD_TICKER_AT: usize = ADD_SHARES_AT + SHARES_LEN;

/// Where the price of an add message begins, counted from its timestamp.
pub const ADD_PRICE_AT: usize = ADD_TICKER_AT + TICKER_LEN;

/// Bytes of an add message behind its header: timestamp, reference number,
/// side, shares, ticker, price.
pub const ADD_BODY_LEN: usize = ADD_PRICE_AT + PRICE_LEN;

/// An order was added to the book.
#[derive(Debug)]
pub struct AddOrder {
    nanoseconds: u64,
    kind: char,
    ticker: String,
    side: Side,
    price: u32,
    shares: u32,
    refno: u64,
    from_replace: Option<bool>,
    mpid: Option<String>,
}

impl View for AddOrder {
    type V = Event;

    closed spec fn view(&self) -> Event {
        Event {
            nanoseconds: self.nanoseconds,
            kind: self.kind,
            ticker: self.ticker@,
            side: self.side,
            price: self.price,
            shares: self.shares,
            refno: self.refno,
            from_replace: self.from_replace,
            mpid: text_of(self.mpid),
            printable: None,
            execution_price: None,
        }
    }
}

impl AddOrder {
    /// The reference number that the add message at the input's position
    /// opens.
    pub open spec fn wire_refno(input: Input, version: Version) -> u64 {
        refno_at(input.bytes, input.position + version.header_len() + ADD_REFNO_AT)
    }

    /// Puts an add event together from its parts.
    pub fn new(
        nanoseconds: u64,
        kind: char,
        ticker: String,
        side: Side,
        price: u32,
        shares: u32,
        refno: u64,
        from_replace: Option<bool>,
        mpid: Option<String>,
    ) -> (event: AddOrder)
        ensures
            event@ == (Event {
                nanoseconds,
                kind,
                ticker: ticker@,
                side,
                price,
                shares,
                refno,
                from_replace,
                mpid: text_of(mpid),
                printable: None,
                execution_price: None,
            }),
    {
        AddOrder { nanoseconds, kind, ticker, side, price, shares, refno, from_replace, mpid }
    }

    /// Nanoseconds since midnight at which the event happened.
    pub fn nanoseconds(&self) -> (value: &u64)
        ensures
            *value == self@.nanoseconds,
    {
        &self.nanoseconds
    }

    /// The kind tag of the event.
    pub fn kind(&self) -> (value: &char)
        ensures
            *value == self@.kind,
    {
        &self.kind
    }

    /// The symbol of the order.
    pub fn ticker(&self) -> (value: &String)
        ensures
            value@ == self@.ticker,
    {
        &self.ticker
    }

    /// The side of the order.
    pub fn side(&self) -> (value: &Side)
        ensures
            *value == self@.side,
    {
        &self.side
    }

    /// The price of the order, in ten-thousandths.
    pub fn price(&self) -> (value: &u32)
        ensures
            *value == self@.price,
    {
        &self.price
    }

    /// The number of shares the order opens with.
    pub fn shares(&self) -> (value: &u32)
        ensures
            *value == self@.shares,
    {
        &self.shares
    }

    /// The reference number of the order.
    pub fn refno(&self) -> (value: &u64)
        ensures
            *value == self@.refno,
    {
        &self.refno
    }

    /// Whether the event comes from a replace, where that is known.
    pub fn from_replace(&self) -> (value: &Option<bool>)
        ensures
            *value == self@.from_replace,
    {
        &self.from_replace
    }

    /// The market participant behind the order, where there is one.
    pub fn mpid(&self) -> (value: &Option<String>)
        ensures
            text_of(*value) == self@.mpid,
    {
        &self.mpid
    }
}

impl IntoOrderMessage for AddOrder {
    fn into_order_message(self, date: String) -> (record: OrderMessage)
        ensures
            record@.printable is None,
            record@.execution_price is None,
    {
        OrderMessage {
            date,
            nanoseconds: self.nanoseconds,
            kind: self.kind,
            ticker: self.ticker,
            side: self.side,
            price: self.price,
            shares: self.shares,
            refno: self.refno,
            from_replace: self.from_replace,
            mpid: self.mpid,
            printable: None,
            execution_price: None,
        }
    }
}

impl ReadMessage for AddOrder {
    open spec fn wire_len(input: Input, version: Version) -> nat {
        (version.header_len() + ADD_BODY_LEN) as nat
    }

    open spec fn frame(input: Input, version: Version) -> Result<nat, DecodeError> {
        framed(input, 0, Self::wire_len(input, version))
    }

    fn measure(buffer: &Cursor, version: &Version) -> (len: Result<usize, DecodeError>) {
        let len = version.header_len() + ADD_BODY_LEN;
        buffer.require(len)?;
        Ok(len)
    }

    open spec fn decoded(input: Input, version: Version, registry: Registry) -> Result<
        (Event, Registry),
        DecodeError,
    > {
        let body = input.position + version.header_len();
        if let Err(e) = Self::frame(input, version) {
            Err(e)
        } else {
            match side_of(input.bytes[body + ADD_SIDE_AT]) {
                None => Err(
                    DecodeError::InvalidSide {
                        offset: (body + ADD_SIDE_AT) as usize,
                        code: input.bytes[body + ADD_SIDE_AT],
                    },
                ),
                Some(side) => {
                    let event = Event {
                        nanoseconds: version.nanoseconds(
                            registry.clock,
                            timestamp_at(input.bytes, body),
                        ),
                        kind: 'A',
                        ticker: ticker_at(input.bytes, body + ADD_TICKER_AT),
                        side,
                        price: price_at(input.bytes, body + ADD_PRICE_AT),
                        shares: shares_at(input.bytes, body + ADD_SHARES_AT),
                        refno: Self::wire_refno(input, version),
                        from_replace: None,
                        mpid: None,
                        printable: None,
                        execution_price: None,
                    };
                    Ok((event, registry.opened(event.refno, event.order())))
                },
            }
        }
    }

    fn read(buffer: &mut Cursor, version: &Version, context: &mut Context) -> (message: Result<
        Self,
        DecodeError,
    >) {
        Self::measure(buffer, version)?;
        let mut input = *buffer;
        input.skip(version.header_len())?;
        let nanoseconds = read_nanoseconds(&mut input, version, context.clock())?;
        let refno = read_refno(&mut input)?;
        let side = read_side(&mut input)?;
        let shares = read_shares(&mut input)?;
        let ticker = read_ticker(&mut input)?;
        let price = read_price(&mut input)?;
        context.insert(refno, OrderState { side, shares, ticker: ticker.clone(), price });
        *buffer = input;
        Ok(
            AddOrder {
                nanoseconds,
                kind: 'A',
                ticker,
                side,
                price,
                shares,
                refno,
                from_replace: None,
                mpid: None,
            },
        )
    }
}

} // verus!
