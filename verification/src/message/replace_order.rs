//! The message that swaps a resting order for a new one, decoded as the delete
//! of the old order followed by the add of the new.

use vstd::prelude::*;
use crate::context::{Context, Registry};
use crate::cursor::{Cursor, Input};
use crate::error::DecodeError;
use crate::field::{
    price_at, read_kind, read_nanoseconds, read_price, read_refno, read_shares, refno_at,
    shares_at, timestamp_at, KIND_LEN, PRICE_LEN, REFNO_LEN, SHARES_LEN, TIMESTAMP_LEN,
};
use crate::message::{framed, AddOrder, DeleteOrder, Event};
use crate::version::Version;

verus! {

/// Where the old reference number of a replace message begins, counted from
/// its timestamp.
pub const REPLACE_OLD_REFNO_AT: usize = TIMESTAMP_LEN;

/// Where the new reference number of a replace message begins, counted from
/// its timestamp.
pub const REPLACE_NEW_REFNO_AT: usize = REPLACE_OLD_REFNO_AT + REFNO_LEN;

/// Where the new shares of a replace message begin, counted from its
/// timestamp.
pub const REPLACE_SHARES_AT: usize = REPLACE_NEW_REFNO_AT + REFNO_LEN;

/// Where the new price of a replace message begins, counted from its
/// timestamp.
pub const REPLACE_PRICE_AT: usize = REPLACE_SHARES_AT + SHARES_LEN;

/// Bytes of a replace message behind its kind tag and header: timestamp, old
/// reference number, new reference number, new shares, new price.
pub const REPLACE_BODY_LEN: usize = REPLACE_PRICE_AT + PRICE_LEN;

/// Number of bytes a replace message occupies.
pub open spec fn replace_wire_len(version: Version) -> nat {
    (KIND_LEN + version.header_len() + REPLACE_BODY_LEN) as nat
}

/// The length of the replace message at the input's position, or the report
/// that the input ends before the message does.
pub open spec fn replace_frame(input: Input, version: Version) -> Result<nat, DecodeError> {
    framed(input, 0, replace_wire_len(version))
}

/// Finds out how long the replace message at the cursor is, without moving.
pub fn measure_replace_order(buffer: &Cursor, version: &Version) -> (len: Result<
    usize,
    DecodeError,
>)
    ensures
        match replace_frame(buffer@, *version) {
            Ok(n) => {
                &&& len == Ok::<usize, DecodeError>(n as usize)
                &&& n == replace_wire_len(*version)
                &&& n <= buffer@.remaining()
            },
            Err(e) => len == Err::<usize, DecodeError>(e),
        },
{
    let len = KIND_LEN + version.header_len() + REPLACE_BODY_LEN;
    buffer.require(len)?;
    Ok(len)
}

/// The reference number of the order that the replace message at the input's
/// position closes.
pub open spec fn replace_old_refno(input: Input, version: Version) -> u64 {
    refno_at(
        input.bytes,
        input.position + KIND_LEN + version.header_len() + REPLACE_OLD_REFNO_AT,
    )
}

/// The reference number of the order that the replace message at the input's
/// position opens.
pub open spec fn replace_new_refno(input: Input, version: Version) -> u64 {
    refno_at(
        input.bytes,
        input.position + KIND_LEN + version.header_len() + REPLACE_NEW_REFNO_AT,
    )
}

/// The shares of the order that the replace message at the input's position
/// opens.
pub open spec fn replace_new_shares(input: Input, version: Version) -> u32 {
    shares_at(input.bytes, input.position + KIND_LEN + version.header_len() + REPLACE_SHARES_AT)
}

/// The price of the order that the replace message at the input's position
/// opens.
pub open spec fn replace_new_price(input: Input, version: Version) -> u32 {
    price_at(input.bytes, input.position + KIND_LEN + version.header_len() + REPLACE_PRICE_AT)
}

/// What decoding the replace message at the input's position yields: the
/// delete of the old order, the add of the new one, and the registry after
/// both; or the reason why there is none.
pub open spec fn replace_decoded(input: Input, version: Version, registry: Registry) -> Result<
    ((Event, Event), Registry),
    DecodeError,
> {
    let body = input.position + KIND_LEN + version.header_len();
    let nanoseconds = version.nanoseconds(registry.clock, timestamp_at(input.bytes, body));
    let old_refno = replace_old_refno(input, version);
    let new_refno = replace_new_refno(input, version);
    let new_shares = replace_new_shares(input, version);
    let new_price = replace_new_price(input, version);
    if let Err(e) = replace_frame(input, version) {
        Err(e)
    } else if !registry.orders.contains_key(old_refno) {
        Err(DecodeError::UnknownOrder { refno: old_refno })
    } else {
        let order = registry.orders[old_refno];
        let deleted = Event {
            nanoseconds,
            kind: 'D',
            ticker: order.ticker,
            side: order.side,
            price: order.price,
            shares: order.shares,
            refno: old_refno,
            from_replace: Some(true),
            mpid: None,
            printable: None,
            execution_price: None,
        };
        let added = Event {
            nanoseconds,
            kind: 'A',
            ticker: order.ticker,
            side: order.side,
            price: new_price,
            shares: new_shares,
            refno: new_refno,
            from_replace: Some(true),
            mpid: None,
            printable: None,
            execution_price: None,
        };
        Ok(((deleted, added), registry.replaced(old_refno, new_refno, new_shares, new_price)))
    }
}

/// Decodes one replace message at the cursor into a delete and an add, both
/// marked as coming from a replace. The old order leaves the registry and the
/// new one enters it in one step. On success the cursor stands behind the
/// message; on failure neither cursor nor registry has changed.
pub fn read_replace_order(buffer: &mut Cursor, version: &Version, context: &mut Context) -> (events:
    Result<(DeleteOrder, AddOrder), DecodeError>)
    ensures
        match replace_decoded(old(buffer)@, *version, old(context)@) {
            Ok(((deleted, added), registry)) => {
                &&& events matches Ok(pair) && pair.0@ == deleted && pair.1@ == added
                &&& final(context)@ == registry
                &&& final(buffer)@ == old(buffer)@.advanced(replace_wire_len(*version))
            },
            Err(e) => {
                &&& events matches Err(x) && x == e
                &&& final(context)@ == old(context)@
                &&& final(buffer)@ == old(buffer)@
            },
        },
{
    measure_replace_order(buffer, version)?;
    let mut input = *buffer;
    let _kind = read_kind(&mut input)?;
    input.skip(version.header_len())?;
    let nanoseconds = read_nanoseconds(&mut input, version, context.clock())?;
    let old_refno = read_refno(&mut input)?;
    let new_refno = read_refno(&mut input)?;
    let new_shares = read_shares(&mut input)?;
    let new_price = read_price(&mut input)?;
    let order = context.replace(old_refno, new_refno, new_shares, new_price)?;
    *buffer = input;
    let ticker = order.ticker.clone();
    let delete_order = DeleteOrder::new(
        nanoseconds,
        'D',
        order.ticker,
        order.side,
        order.price,
        order.shares,
        old_refno,
        Some(true),
    );
    let add_order = AddOrder::new(
        nanoseconds,
        'A',
        ticker,
        order.side,
        new_price,
        new_shares,
        new_refno,
        Some(true),
        None,
    );
    Ok((delete_order, add_order))
}

} // verus!
