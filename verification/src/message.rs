//! The decoded events, one decoder for each, and the record they flatten into.

use vstd::prelude::*;
use crate::context::{Context, Registry};
use crate::cursor::{Cursor, Input};
use crate::error::DecodeError;
use crate::order::{OrderModel, Side};
use crate::version::Version;

pub mod add_order;
pub mod cancel_order;
pub mod delete_order;
pub mod execute_order;
pub mod replace_order;

pub use add_order::AddOrder;
pub use cancel_order::CancelOrder;
pub use delete_order::DeleteOrder;
pub use execute_order::ExecuteOrder;
pub use replace_order::{measure_replace_order, read_replace_order};

verus! {

/// What any decoded event says, as a plain value. A field that an event does
/// not carry is `None`.
pub struct Event {
    pub nanoseconds: u64,
    pub kind: char,
    pub ticker: Seq<char>,
    pub side: Side,
    pub price: u32,
    pub shares: u32,
    pub refno: u64,
    pub from_replace: Option<bool>,
    pub mpid: Option<Seq<char>>,
    pub printable: Option<bool>,
    pub execution_price: Option<u32>,
}

impl Event {
    /// The resting order that the event describes.
    pub open spec fn order(self) -> OrderModel {
        OrderModel { side: self.side, shares: self.shares, ticker: self.ticker, price: self.price }
    }
}

impl Event {
    /// The flat record of the event for the session of `date`.
    pub open spec fn dated(self, date: Seq<char>) -> Record {
        Record {
            date,
            nanoseconds: self.nanoseconds,
            kind: self.kind,
            ticker: self.ticker,
            side: self.side,
            price: self.price,
            shares: self.shares,
            refno: self.refno,
            from_replace: self.from_replace,
            mpid: self.mpid,
            printable: self.printable,
            execution_price: self.execution_price,
        }
    }
}

/// The flat record that every event is brought to before it leaves the
/// decoder. A field that the event does not carry is `None`.
#[derive(Clone, Debug, PartialEq, Eq)]
pub struct OrderMessage {
    pub date: String,
    pub nanoseconds: u64,
    pub kind: char,
    pub ticker: String,
    pub side: Side,
    pub price: u32,
    pub shares: u32,
    pub refno: u64,
    pub from_replace: Option<bool>,
    pub mpid: Option<String>,
    pub printable: Option<bool>,
    pub execution_price: Option<u32>,
}

/// An `OrderMessage` as a plain value.
pub struct Record {
    pub date: Seq<char>,
    pub nanoseconds: u64,
    pub kind: char,
    pub ticker: Seq<char>,
    pub side: Side,
    pub price: u32,
    pub shares: u32,
    pub refno: u64,
    pub from_replace: Option<bool>,
    pub mpid: Option<Seq<char>>,
    pub printable: Option<bool>,
    pub execution_price: Option<u32>,
}

/// The characters of a string that may be absent.
pub open spec fn text_of(text: Option<String>) -> Option<Seq<char>> {
    match text {
        Some(text) => Some(text@),
        None => None,
    }
}

impl View for OrderMessage {
    type V = Record;

    open spec fn view(&self) -> Record {
        Record {
            date: self.date@,
            nanoseconds: self.nanoseconds,
            kind: self.kind,
            ticker: self.ticker@,
            side: self.side,
            price: self.price,
            shares: self.shares,
            refno: self.refno,
            from_replace: self.from_replace,
            mpid: text_of(self.mpid),
            printable: self.printable,
            execution_price: self.execution_price,
        }
    }
}

/// An event that can be flattened into the canonical record.
pub trait IntoOrderMessage: Sized + View<V = Event> {
    /// Flattens the event into the record for the session of `date`: every
    /// field the event carries is kept, every other one stays `None`.
    fn into_order_message(self, date: String) -> (record: OrderMessage)
        ensures
            record@ == self@.dated(date@),
    ;
}

/// The length of the message at the input's position, when its first `known`
/// bytes tell that it is `len` bytes long: `len` if the input holds that many,
/// else the report that the input ends too early.
pub open spec fn framed(input: Input, known: nat, len: nat) -> Result<nat, DecodeError> {
    if input.remaining() < known {
        Err(DecodeError::UnexpectedEof { offset: input.position as usize, needed: known as usize })
    } else if input.remaining() < len {
        Err(DecodeError::UnexpectedEof { offset: input.position as usize, needed: len as usize })
    } else {
        Ok(len)
    }
}

/// A message type that is decoded from the wire against the registry.
pub trait ReadMessage: Sized + View<V = Event> {
    /// Number of bytes that the message at the input's position occupies.
    spec fn wire_len(input: Input, version: Version) -> nat;

    /// The length of the message at the input's position, or the report that
    /// the input ends before the message does.
    spec fn frame(input: Input, version: Version) -> Result<nat, DecodeError>;

    /// Finds out how long the message at the cursor is, without moving. A
    /// caller that passes over a message which the registry refused skips this
    /// many bytes.
    fn measure(buffer: &Cursor, version: &Version) -> (len: Result<usize, DecodeError>)
        ensures
            match Self::frame(buffer@, *version) {
                Ok(n) => {
                    &&& len == Ok::<usize, DecodeError>(n as usize)
                    &&& n == Self::wire_len(buffer@, *version)
                    &&& n <= buffer@.remaining()
                },
                Err(e) => len == Err::<usize, DecodeError>(e),
            },
    ;

    /// What decoding the message at the input's position yields: the event and
    /// the registry after it, or the reason why there is none.
    spec fn decoded(input: Input, version: Version, registry: Registry) -> Result<
        (Event, Registry),
        DecodeError,
    >;

    /// Decodes one message at the cursor. On success the cursor stands behind
    /// the message and the registry has taken the event in; on failure neither
    /// has changed.
    fn read(buffer: &mut Cursor, version: &Version, context: &mut Context) -> (message: Result<
        Self,
        DecodeError,
    >)
        ensures
            match Self::decoded(old(buffer)@, *version, old(context)@) {
                Ok((event, registry)) => {
                    &&& message matches Ok(m) && m@ == event
                    &&& final(context)@ == registry
                    &&& final(buffer)@ == old(buffer)@.advanced(
                        Self::wire_len(old(buffer)@, *version),
                    )
                },
                Err(e) => {
                    &&& message matches Err(x) && x == e
                    &&& final(context)@ == old(context)@
                    &&& final(buffer)@ == old(buffer)@
                },
            },
    ;
}

} // verus!
