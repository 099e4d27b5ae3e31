//! What the stock-locate and tracking-number header changes in a message:
//! where its timestamp begins, and nothing else.

use vstd::prelude::*;
use crate::context::Registry;
use crate::cursor::Input;
use crate::error::DecodeError;
use crate::field::{
    timestamp_at, KIND_LEN, PRICE_LEN, PRINTABLE_LEN, REFNO_LEN, SHARES_LEN, SIDE_LEN,
    TICKER_LEN, TIMESTAMP_LEN,
};
use crate::message::add_order::{
    AddOrder, ADD_BODY_LEN, ADD_PRICE_AT, ADD_REFNO_AT, ADD_SHARES_AT, ADD_SIDE_AT,
    ADD_TICKER_AT,
};
use crate::message::cancel_order::{
    CancelOrder, CANCEL_BODY_LEN, CANCEL_REFNO_AT, CANCEL_SHARES_AT,
};
use crate::message::delete_order::{DeleteOrder, DELETE_BODY_LEN, DELETE_REFNO_AT};
use crate::message::execute_order::{
    ExecuteOrder, EXECUTE_PRICE_AT, EXECUTE_PRINTABLE_AT, EXECUTE_REFNO_AT, EXECUTE_SHARES_AT,
};
use crate::message::replace_order::{
    replace_decoded, replace_wire_len, REPLACE_BODY_LEN, REPLACE_NEW_REFNO_AT,
    REPLACE_OLD_REFNO_AT, REPLACE_PRICE_AT, REPLACE_SHARES_AT,
};
use crate::message::{Event, ReadMessage};
use crate::version::{Version, LOCATE_HEADER_LEN};

verus! {

/// Whether two inputs hold the same message at their positions, the first
/// with the header behind its `tag_len` tag bytes and the second without: the
/// tags are the same bytes, and so are the `body_len` bytes from the timestamp
/// on.
pub open spec fn same_message(with: Input, without: Input, tag_len: nat, body_len: nat) -> bool {
    let with_tag = with.position as int;
    let with_body = with_tag + tag_len + LOCATE_HEADER_LEN;
    let without_tag = without.position as int;
    let without_body = without_tag + tag_len;
    &&& with.remaining() >= tag_len + LOCATE_HEADER_LEN + body_len
    &&& without.remaining() >= tag_len + body_len
    &&& with.bytes.subrange(with_tag, with_tag + tag_len) == without.bytes.subrange(
        without_tag,
        without_tag + tag_len,
    )
    &&& with.bytes.subrange(with_body, with_body + body_len) == without.bytes.subrange(
        without_body,
        without_body + body_len,
    )
}

/// Whether two events say the same but for their time.
pub open spec fn same_but_time(first: Event, second: Event) -> bool {
    first == (Event { nanoseconds: first.nanoseconds, ..second })
}

/// Whether two failures are the same but for the offset they name.
pub open spec fn same_but_offset(first: DecodeError, second: DecodeError) -> bool {
    match (first, second) {
        (
            DecodeError::UnexpectedEof { needed: first_needed, .. },
            DecodeError::UnexpectedEof { needed: second_needed, .. },
        ) => first_needed == second_needed,
        (
            DecodeError::InvalidSide { code: first_code, .. },
            DecodeError::InvalidSide { code: second_code, .. },
        ) => first_code == second_code,
        _ => first == second,
    }
}

/// Whether two decodes came out alike: both gave the same registry and events
/// that differ in their time at most, or both failed for the same reason.
pub open spec fn same_outcome(
    first: Result<(Event, Registry), DecodeError>,
    second: Result<(Event, Registry), DecodeError>,
) -> bool {
    match (first, second) {
        (Ok((first_event, first_registry)), Ok((second_event, second_registry))) => {
            &&& same_but_time(first_event, second_event)
            &&& first_registry == second_registry
        },
        (Err(first_error), Err(second_error)) => same_but_offset(first_error, second_error),
        _ => false,
    }
}

/// Whether two decodes of a replace came out alike: both gave the same
/// registry and pairs of events that differ in their time at most, or both
/// failed for the same reason.
pub open spec fn same_replace_outcome(
    first: Result<((Event, Event), Registry), DecodeError>,
    second: Result<((Event, Event), Registry), DecodeError>,
) -> bool {
    match (first, second) {
        (Ok((first_events, first_registry)), Ok((second_events, second_registry))) => {
            &&& same_but_time(first_events.0, second_events.0)
            &&& same_but_time(first_events.1, second_events.1)
            &&& first_registry == second_registry
        },
        (Err(first_error), Err(second_error)) => same_but_offset(first_error, second_error),
        _ => false,
    }
}

/// Where two buffers agree on a stretch of bytes, they agree on every field
/// that lies inside it.
pub proof fn lemma_fields_agree(
    first: Seq<u8>,
    first_at: int,
    second: Seq<u8>,
    second_at: int,
    len: int,
    offset: int,
    width: int,
)
    requires
        0 <= first_at,
        first_at + len <= first.len(),
        0 <= second_at,
        second_at + len <= second.len(),
        first.subrange(first_at, first_at + len) == second.subrange(second_at, second_at + len),
        0 <= offset,
        0 <= width,
        offset + width <= len,
    ensures
        first.subrange(first_at + offset, first_at + offset + width) == second.subrange(
            second_at + offset,
            second_at + offset + width,
        ),
        width > 0 ==> first[first_at + offset] == second[second_at + offset],
{
    let first_stretch = first.subrange(first_at, first_at + len);
    let second_stretch = second.subrange(second_at, second_at + len);
    assert(first.subrange(first_at + offset, first_at + offset + width)
        =~= first_stretch.subrange(offset, offset + width));
    assert(second.subrange(second_at + offset, second_at + offset + width)
        =~= second_stretch.subrange(offset, offset + width));
    if width > 0 {
        assert(first[first_at + offset] == first_stretch[offset]);
        assert(second[second_at + offset] == second_stretch[offset]);
    }
}

/// The header puts exactly four bytes in front of the timestamp, in a format
/// that has it, and none in one that has not.
pub proof fn lemma_header_is_four_bytes(with: Version, without: Version)
    requires
        with.has_header(),
        !without.has_header(),
    ensures
        with.header_len() == without.header_len() + 4,
        without.header_len() == 0,
{
}

/// An add message with the header occupies four bytes more than the same
/// message without it, its timestamp begins four bytes later, and it decodes
/// to the same order and the same registry.
pub proof fn lemma_add_with_header(
    with_input: Input,
    with: Version,
    without_input: Input,
    without: Version,
    registry: Registry,
)
    requires
        with.has_header(),
        !without.has_header(),
        same_message(with_input, without_input, 0, ADD_BODY_LEN as nat),
    ensures
        AddOrder::wire_len(with_input, with) == AddOrder::wire_len(without_input, without) + 4,
        timestamp_at(with_input.bytes, with_input.position as int + 4) == timestamp_at(
            without_input.bytes,
            without_input.position as int,
        ),
        same_outcome(
            AddOrder::decoded(with_input, with, registry),
            AddOrder::decoded(without_input, without, registry),
        ),
{
    let a = with_input.bytes;
    let pa = with_input.position as int + 4;
    let b = without_input.bytes;
    let pb = without_input.position as int;
    let len = ADD_BODY_LEN as int;
    lemma_fields_agree(a, pa, b, pb, len, 0, TIMESTAMP_LEN as int);
    lemma_fields_agree(a, pa, b, pb, len, ADD_REFNO_AT as int, REFNO_LEN as int);
    lemma_fields_agree(a, pa, b, pb, len, ADD_SIDE_AT as int, SIDE_LEN as int);
    lemma_fields_agree(a, pa, b, pb, len, ADD_SHARES_AT as int, SHARES_LEN as int);
    lemma_fields_agree(a, pa, b, pb, len, ADD_TICKER_AT as int, TICKER_LEN as int);
    lemma_fields_agree(a, pa, b, pb, len, ADD_PRICE_AT as int, PRICE_LEN as int);
}

/// A delete message with the header occupies four bytes more than the same
/// message without it, its timestamp begins four bytes later, and it decodes
/// to the same outcome.
pub proof fn lemma_delete_with_header(
    with_input: Input,
    with: Version,
    without_input: Input,
    without: Version,
    registry: Registry,
)
    requires
        with.has_header(),
        !without.has_header(),
        same_message(with_input, without_input, 0, DELETE_BODY_LEN as nat),
    ensures
        DeleteOrder::wire_len(with_input, with) == DeleteOrder::wire_len(without_input, without)
            + 4,
        timestamp_at(with_input.bytes, with_input.position as int + 4) == timestamp_at(
            without_input.bytes,
            without_input.position as int,
        ),
        same_outcome(
            DeleteOrder::decoded(with_input, with, registry),
            DeleteOrder::decoded(without_input, without, registry),
        ),
{
    let a = with_input.bytes;
    let pa = with_input.position as int + 4;
    let b = without_input.bytes;
    let pb = without_input.position as int;
    let len = DELETE_BODY_LEN as int;
    lemma_fields_agree(a, pa, b, pb, len, 0, TIMESTAMP_LEN as int);
    lemma_fields_agree(a, pa, b, pb, len, DELETE_REFNO_AT as int, REFNO_LEN as int);
}

/// A cancel message with the header occupies four bytes more than the same
/// message without it, its timestamp begins four bytes later behind the same
/// kind tag, and it decodes to the same outcome.
pub proof fn lemma_cancel_with_header(
    with_input: Input,
    with: Version,
    without_input: Input,
    without: Version,
    registry: Registry,
)
    requires
        with.has_header(),
        !without.has_header(),
        same_message(with_input, without_input, KIND_LEN as nat, CANCEL_BODY_LEN as nat),
    ensures
        CancelOrder::wire_len(with_input, with) == CancelOrder::wire_len(without_input, without)
            + 4,
        timestamp_at(with_input.bytes, with_input.position as int + KIND_LEN + 4) == timestamp_at(
            without_input.bytes,
            without_input.position as int + KIND_LEN,
        ),
        same_outcome(
            CancelOrder::decoded(with_input, with, registry),
            CancelOrder::decoded(without_input, without, registry),
        ),
{
    let a = with_input.bytes;
    let pa = with_input.position as int + KIND_LEN + 4;
    let b = without_input.bytes;
    let pb = without_input.position as int + KIND_LEN;
    let len = CANCEL_BODY_LEN as int;
    lemma_fields_agree(
        a,
        with_input.position as int,
        b,
        without_input.position as int,
        KIND_LEN as int,
        0,
        KIND_LEN as int,
    );
    lemma_fields_agree(a, pa, b, pb, len, 0, TIMESTAMP_LEN as int);
    lemma_fields_agree(a, pa, b, pb, len, CANCEL_REFNO_AT as int, REFNO_LEN as int);
    lemma_fields_agree(a, pa, b, pb, len, CANCEL_SHARES_AT as int, SHARES_LEN as int);
}

/// An execute message with the header occupies four bytes more than the same
/// message without it, its timestamp begins four bytes later behind the same
/// kind tag, and it decodes to the same outcome.
pub proof fn lemma_execute_with_header(
    with_input: Input,
    with: Version,
    without_input: Input,
    without: Version,
    registry: Registry,
)
    requires
        with.has_header(),
        !without.has_header(),
        same_message(
            with_input,
            without_input,
            KIND_LEN as nat,
            (ExecuteOrder::wire_len(without_input, without) - KIND_LEN) as nat,
        ),
    ensures
        ExecuteOrder::wire_len(with_input, with) == ExecuteOrder::wire_len(without_input, without)
            + 4,
        timestamp_at(with_input.bytes, with_input.position as int + KIND_LEN + 4) == timestamp_at(
            without_input.bytes,
            without_input.position as int + KIND_LEN,
        ),
        same_outcome(
            ExecuteOrder::decoded(with_input, with, registry),
            ExecuteOrder::decoded(without_input, without, registry),
        ),
{
    let a = with_input.bytes;
    let pa = with_input.position as int + KIND_LEN + 4;
    let b = without_input.bytes;
    let pb = without_input.position as int + KIND_LEN;
    let len = ExecuteOrder::wire_len(without_input, without) - KIND_LEN;
    lemma_fields_agree(
        a,
        with_input.position as int,
        b,
        without_input.position as int,
        KIND_LEN as int,
        0,
        KIND_LEN as int,
    );
    lemma_fields_agree(a, pa, b, pb, len, 0, TIMESTAMP_LEN as int);
    lemma_fields_agree(a, pa, b, pb, len, EXECUTE_REFNO_AT as int, REFNO_LEN as int);
    lemma_fields_agree(a, pa, b, pb, len, EXECUTE_SHARES_AT as int, SHARES_LEN as int);
    if ExecuteOrder::wire_priced(without_input) {
        lemma_fields_agree(a, pa, b, pb, len, EXECUTE_PRINTABLE_AT as int, PRINTABLE_LEN as int);
        lemma_fields_agree(a, pa, b, pb, len, EXECUTE_PRICE_AT as int, PRICE_LEN as int);
    }
}

/// A replace message with the header occupies four bytes more than the same
/// message without it, its timestamp begins four bytes later behind the same
/// kind tag, and it decodes to the same outcome.
pub proof fn lemma_replace_with_header(
    with_input: Input,
    with: Version,
    without_input: Input,
    without: Version,
    registry: Registry,
)
    requires
        with.has_header(),
        !without.has_header(),
        same_message(with_input, without_input, KIND_LEN as nat, REPLACE_BODY_LEN as nat),
    ensures
        replace_wire_len(with) == replace_wire_len(without) + 4,
        timestamp_at(with_input.bytes, with_input.position as int + KIND_LEN + 4) == timestamp_at(
            without_input.bytes,
            without_input.position as int + KIND_LEN,
        ),
        same_replace_outcome(
            replace_decoded(with_input, with, registry),
            replace_decoded(without_input, without, registry),
        ),
{
    let a = with_input.bytes;
    let pa = with_input.position as int + KIND_LEN + 4;
    let b = without_input.bytes;
    let pb = without_input.position as int + KIND_LEN;
    let len = REPLACE_BODY_LEN as int;
    lemma_fields_agree(a, pa, b, pb, len, 0, TIMESTAMP_LEN as int);
    lemma_fields_agree(a, pa, b, pb, len, REPLACE_OLD_REFNO_AT as int, REFNO_LEN as int);
    lemma_fields_agree(a, pa, b, pb, len, REPLACE_NEW_REFNO_AT as int, REFNO_LEN as int);
    lemma_fields_agree(a, pa, b, pb, len, REPLACE_SHARES_AT as int, SHARES_LEN as int);
    lemma_fields_agree(a, pa, b, pb, len, REPLACE_PRICE_AT as int, PRICE_LEN as int);
}

} // verus!
