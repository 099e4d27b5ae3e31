//! Readers for the fixed-width fields that the messages are made of.
//!
//! Every reader takes its field at the cursor and moves past it. When too few
//! bytes are left, or the field holds a code that means nothing, the reader
//! reports that and leaves the cursor where it was.

use vstd::prelude::*;
use crate::cursor::{Cursor, Input};
use crate::error::DecodeError;
use crate::order::Side;
use crate::version::{Version, MAX_TIMESTAMP};

verus! {

/// Bytes of a reference number.
pub const REFNO_LEN: usize = 8;

/// Bytes of a side code.
pub const SIDE_LEN: usize = 1;

/// Bytes of a share count.
pub const SHARES_LEN: usize = 4;

/// Bytes of a ticker, padding included.
pub const TICKER_LEN: usize = 8;

/// Bytes of a price.
pub const PRICE_LEN: usize = 4;

/// Bytes of a kind tag.
pub const KIND_LEN: usize = 1;

/// Bytes of a printable flag.
pub const PRINTABLE_LEN: usize = 1;

/// Bytes of a timestamp.
pub const TIMESTAMP_LEN: usize = 6;

/// The number that `bytes` spell in big-endian order.
pub open spec fn be_value(bytes: Seq<u8>) -> nat
    decreases bytes.len(),
{
    if bytes.len() == 0 {
        0
    } else {
        be_value(bytes.drop_last()) * 256 + bytes.last() as nat
    }
}

/// 256 to the power of `exponent`.
pub open spec fn pow256(exponent: nat) -> nat
    decreases exponent,
{
    if exponent == 0 {
        1
    } else {
        256 * pow256((exponent - 1) as nat)
    }
}

/// A big-endian number of `n` bytes is below 256 to the `n`.
pub proof fn lemma_be_value_bound(bytes: Seq<u8>)
    ensures
        be_value(bytes) < pow256(bytes.len()),
    decreases bytes.len(),
{
    if bytes.len() > 0 {
        lemma_be_value_bound(bytes.drop_last());
    }
}

/// The powers of 256 that the field widths need.
pub proof fn lemma_pow256_values()
    ensures
        pow256(0) == 1,
        pow256(1) == 0x100,
        pow256(2) == 0x1_0000,
        pow256(3) == 0x100_0000,
        pow256(4) == 0x1_0000_0000,
        pow256(5) == 0x100_0000_0000,
        pow256(6) == 0x1_0000_0000_0000,
        pow256(7) == 0x100_0000_0000_0000,
        pow256(8) == 0x1_0000_0000_0000_0000,
{
    reveal_with_fuel(pow256, 9);
}

/// The big-endian number in the `width` bytes of `bytes` that begin at `at`.
pub open spec fn uint_at(bytes: Seq<u8>, at: int, width: nat) -> nat {
    be_value(bytes.subrange(at, at + width))
}

/// The reference number in the field at `at`.
pub open spec fn refno_at(bytes: Seq<u8>, at: int) -> u64 {
    uint_at(bytes, at, REFNO_LEN as nat) as u64
}

/// The share count in the field at `at`.
pub open spec fn shares_at(bytes: Seq<u8>, at: int) -> u32 {
    uint_at(bytes, at, SHARES_LEN as nat) as u32
}

/// The price in the field at `at`, in ten-thousandths.
pub open spec fn price_at(bytes: Seq<u8>, at: int) -> u32 {
    uint_at(bytes, at, PRICE_LEN as nat) as u32
}

/// The raw timestamp in the field at `at`.
pub open spec fn timestamp_at(bytes: Seq<u8>, at: int) -> u64 {
    uint_at(bytes, at, TIMESTAMP_LEN as nat) as u64
}

/// The number in a field that lies inside the buffer fits the field's type, so
/// the field's value is that number, and a timestamp stays within six bytes.
pub proof fn lemma_fields_fit(bytes: Seq<u8>, at: int)
    requires
        0 <= at,
    ensures
        at + REFNO_LEN <= bytes.len() ==> refno_at(bytes, at) == uint_at(
            bytes,
            at,
            REFNO_LEN as nat,
        ),
        at + SHARES_LEN <= bytes.len() ==> shares_at(bytes, at) == uint_at(
            bytes,
            at,
            SHARES_LEN as nat,
        ),
        at + PRICE_LEN <= bytes.len() ==> price_at(bytes, at) == uint_at(
            bytes,
            at,
            PRICE_LEN as nat,
        ),
        at + TIMESTAMP_LEN <= bytes.len() ==> timestamp_at(bytes, at) == uint_at(
            bytes,
            at,
            TIMESTAMP_LEN as nat,
        ) && timestamp_at(bytes, at) <= MAX_TIMESTAMP,
{
    lemma_pow256_values();
    lemma_be_value_bound(bytes.subrange(at, at + REFNO_LEN));
    lemma_be_value_bound(bytes.subrange(at, at + SHARES_LEN));
    lemma_be_value_bound(bytes.subrange(at, at + TIMESTAMP_LEN));
}

/// The side that a side code names, if it names one.
pub open spec fn side_of(code: u8) -> Option<Side> {
    if code == 0x42 {
        Some(Side::Buy)
    } else if code == 0x53 {
        Some(Side::Sell)
    } else {
        None
    }
}

/// The kind tag in the byte at `at`.
pub open spec fn kind_at(bytes: Seq<u8>, at: int) -> char {
    bytes[at] as char
}

/// The printable flag in the byte at `at`: set by `Y`, clear otherwise.
pub open spec fn printable_at(bytes: Seq<u8>, at: int) -> bool {
    bytes[at] == 0x59
}

/// Length of a ticker field once the spaces that pad it on the right are gone.
pub open spec fn trimmed_len(field: Seq<u8>) -> nat
    decreases field.len(),
{
    if field.len() > 0 && field.last() == 0x20 {
        trimmed_len(field.drop_last())
    } else {
        field.len()
    }
}

/// The symbol that a ticker field spells: its bytes, without the padding, as
/// characters.
pub open spec fn ticker_of(field: Seq<u8>) -> Seq<char> {
    Seq::new(trimmed_len(field), |i: int| field[i] as char)
}

/// The symbol in the ticker field at `at`.
pub open spec fn ticker_at(bytes: Seq<u8>, at: int) -> Seq<char> {
    ticker_of(bytes.subrange(at, at + TICKER_LEN))
}

/// What a reader of a `width`-byte field that cannot hold a bad code has done:
/// it has returned `expected` and moved past the field, or has reported a short
/// input and stayed.
pub open spec fn field_read<T>(
    before: Input,
    after: Input,
    result: Result<T, DecodeError>,
    width: usize,
    expected: T,
) -> bool {
    match result {
        Ok(value) => {
            &&& width <= before.remaining()
            &&& value == expected
            &&& after == before.advanced(width as nat)
        },
        Err(e) => {
            &&& width > before.remaining()
            &&& e == (DecodeError::UnexpectedEof {
                offset: before.position as usize,
                needed: width,
            })
            &&& after == before
        },
    }
}

/// Computes the number that at most eight bytes spell in big-endian order.
fn decode_uint(bytes: &[u8]) -> (value: u64)
    requires
        bytes@.len() <= 8,
    ensures
        value == be_value(bytes@),
        value < pow256(bytes@.len()),
{
    let mut value: u64 = 0;
    let mut i: usize = 0;
    while i < bytes.len()
        invariant
            i <= bytes@.len() <= 8,
            value == be_value(bytes@.take(i as int)),
        decreases bytes@.len() - i,
    {
        proof {
            lemma_be_value_bound(bytes@.take(i as int));
            lemma_pow256_values();
            assert(bytes@.take(i + 1).drop_last() =~= bytes@.take(i as int));
        }
        value = value * 256 + bytes[i] as u64;
        i += 1;
    }
    proof {
        assert(bytes@.take(i as int) =~= bytes@);
        lemma_be_value_bound(bytes@);
    }
    value
}

/// Reads an eight-byte reference number.
pub fn read_refno(buffer: &mut Cursor) -> (refno: Result<u64, DecodeError>)
    ensures
        field_read(
            old(buffer)@,
            final(buffer)@,
            refno,
            REFNO_LEN,
            refno_at(old(buffer)@.bytes, old(buffer)@.position as int),
        ),
{
    let field = buffer.take(REFNO_LEN)?;
    proof {
        lemma_pow256_values();
    }
    Ok(decode_uint(field))
}

/// Reads a one-byte side code, `B` for buy or `S` for sell.
pub fn read_side(buffer: &mut Cursor) -> (side: Result<Side, DecodeError>)
    ensures
        match side {
            Ok(value) => {
                &&& SIDE_LEN <= old(buffer)@.remaining()
                &&& side_of(old(buffer)@.bytes[old(buffer)@.position as int]) == Some(value)
                &&& final(buffer)@ == old(buffer)@.advanced(SIDE_LEN as nat)
            },
            Err(e) => {
                &&& final(buffer)@ == old(buffer)@
                &&& if SIDE_LEN <= old(buffer)@.remaining() {
                    &&& side_of(old(buffer)@.bytes[old(buffer)@.position as int]) is None
                    &&& e == (DecodeError::InvalidSide {
                        offset: old(buffer)@.position as usize,
                        code: old(buffer)@.bytes[old(buffer)@.position as int],
                    })
                } else {
                    e == (DecodeError::UnexpectedEof {
                        offset: old(buffer)@.position as usize,
                        needed: SIDE_LEN,
                    })
                }
            },
        },
{
    let mut input = *buffer;
    let offset = input.position();
    let field = input.take(SIDE_LEN)?;
    let code = field[0];
    let side = if code == 0x42 {
        Side::Buy
    } else if code == 0x53 {
        Side::Sell
    } else {
        return Err(DecodeError::InvalidSide { offset, code });
    };
    *buffer = input;
    Ok(side)
}

/// Reads a four-byte share count.
pub fn read_shares(buffer: &mut Cursor) -> (shares: Result<u32, DecodeError>)
    ensures
        field_read(
            old(buffer)@,
            final(buffer)@,
            shares,
            SHARES_LEN,
            shares_at(old(buffer)@.bytes, old(buffer)@.position as int),
        ),
{
    let field = buffer.take(SHARES_LEN)?;
    proof {
        lemma_pow256_values();
    }
    Ok(decode_uint(field) as u32)
}

/// Reads a four-byte price in ten-thousandths.
pub fn read_price(buffer: &mut Cursor) -> (price: Result<u32, DecodeError>)
    ensures
        field_read(
            old(buffer)@,
            final(buffer)@,
            price,
            PRICE_LEN,
            price_at(old(buffer)@.bytes, old(buffer)@.position as int),
        ),
{
    let field = buffer.take(PRICE_LEN)?;
    proof {
        lemma_pow256_values();
    }
    Ok(decode_uint(field) as u32)
}

/// Reads a one-byte kind tag.
pub fn read_kind(buffer: &mut Cursor) -> (kind: Result<char, DecodeError>)
    ensures
        field_read(
            old(buffer)@,
            final(buffer)@,
            kind,
            KIND_LEN,
            kind_at(old(buffer)@.bytes, old(buffer)@.position as int),
        ),
{
    let field = buffer.take(KIND_LEN)?;
    Ok(field[0] as char)
}

/// Reads a one-byte printable flag.
pub fn read_printable(buffer: &mut Cursor) -> (printable: Result<bool, DecodeError>)
    ensures
        field_read(
            old(buffer)@,
            final(buffer)@,
            printable,
            PRINTABLE_LEN,
            printable_at(old(buffer)@.bytes, old(buffer)@.position as int),
        ),
{
    let field = buffer.take(PRINTABLE_LEN)?;
    Ok(field[0] == 0x59)
}

/// Reads a six-byte timestamp and expands it to nanoseconds since midnight, as
/// the wire format asks, for a clock that stands at `clock` seconds.
pub fn read_nanoseconds(buffer: &mut Cursor, version: &Version, clock: u32) -> (nanoseconds: Result<
    u64,
    DecodeError,
>)
    ensures
        field_read(
            old(buffer)@,
            final(buffer)@,
            nanoseconds,
            TIMESTAMP_LEN,
            version.nanoseconds(
                clock,
                timestamp_at(old(buffer)@.bytes, old(buffer)@.position as int),
            ),
        ),
{
    let field = buffer.take(TIMESTAMP_LEN)?;
    proof {
        lemma_pow256_values();
    }
    Ok(version.nanoseconds(clock, decode_uint(field)))
}

/// Appends one character to a string. This is `String::push`, which std
/// documents as appending the given character to the end of the string.
#[verifier::external_body]
fn push_char(text: &mut String, c: char)
    ensures
        final(text)@ == old(text)@.push(c),
{
    text.push(c)
}

/// Spells the symbol of an eight-byte ticker field.
fn decode_ticker(field: &[u8]) -> (ticker: String)
    ensures
        ticker@ == ticker_of(field@),
{
    let mut end: usize = field.len();
    proof {
        assert(field@.take(end as int) =~= field@);
    }
    while end > 0 && field[end - 1] == 0x20
        invariant
            end <= field@.len(),
            trimmed_len(field@) == trimmed_len(field@.take(end as int)),
        decreases end,
    {
        proof {
            assert(field@.take(end as int).drop_last() =~= field@.take(end - 1));
        }
        end -= 1;
    }
    let mut ticker = String::new();
    let mut i: usize = 0;
    while i < end
        invariant
            i <= end <= field@.len(),
            ticker@ == Seq::new(i as nat, |k: int| field@[k] as char),
        decreases end - i,
    {
        push_char(&mut ticker, field[i] as char);
        i += 1;
        proof {
            assert(ticker@ =~= Seq::new(i as nat, |k: int| field@[k] as char));
        }
    }
    ticker
}

/// Reads an eight-byte ticker, padded with spaces on the right, as the symbol
/// it spells.
pub fn read_ticker(buffer: &mut Cursor) -> (ticker: Result<String, DecodeError>)
    ensures
        match ticker {
            Ok(symbol) => {
                &&& TICKER_LEN <= old(buffer)@.remaining()
                &&& symbol@ == ticker_at(old(buffer)@.bytes, old(buffer)@.position as int)
                &&& final(buffer)@ == old(buffer)@.advanced(TICKER_LEN as nat)
            },
            Err(e) => {
                &&& TICKER_LEN > old(buffer)@.remaining()
                &&& e == (DecodeError::UnexpectedEof {
                    offset: old(buffer)@.position as usize,
                    needed: TICKER_LEN,
                })
                &&& final(buffer)@ == old(buffer)@
            },
        },
{
    let field = buffer.take(TICKER_LEN)?;
    Ok(decode_ticker(field))
}

} // verus!
