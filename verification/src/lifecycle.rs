//! What holds of an order from the add that opens it to the message that
//! closes it, whatever bytes carry the messages.

use vstd::prelude::*;
use crate::context::Registry;
use crate::cursor::Input;
use crate::error::{fails_with, DecodeError};
use crate::message::add_order::AddOrder;
use crate::message::cancel_order::CancelOrder;
use crate::message::delete_order::DeleteOrder;
use crate::message::execute_order::ExecuteOrder;
use crate::message::replace_order::{
    replace_decoded, replace_new_price, replace_new_refno, replace_new_shares, replace_old_refno,
    replace_wire_len,
};
use crate::message::ReadMessage;
use crate::order::OrderModel;
use crate::version::Version;

verus! {

/// The registry that a later message meets: the orders as they were left, the
/// clock wherever it stands by then.
pub open spec fn later(registry: Registry, clock: u32) -> Registry {
    Registry { orders: registry.orders, clock }
}

/// An add leaves its order in the registry as the event describes it, and
/// touches no other reference.
pub proof fn lemma_add_opens_order(input: Input, version: Version, registry: Registry)
    requires
        AddOrder::decoded(input, version, registry) is Ok,
    ensures
        ({
            let (added, after) = AddOrder::decoded(input, version, registry).unwrap();
            &&& added.refno == AddOrder::wire_refno(input, version)
            &&& after.orders.contains_key(added.refno)
            &&& after.orders[added.refno] == added.order()
            &&& after.clock == registry.clock
            &&& forall|other: u64|
                other != added.refno ==> {
                    &&& after.orders.contains_key(other) == registry.orders.contains_key(other)
                    &&& after.orders[other] == registry.orders[other]
                }
        }),
{
}

/// A delete that follows the add of the same reference succeeds, reports the
/// shares, ticker, side and price of that add, and leaves the reference
/// inactive.
pub proof fn lemma_delete_reports_added_order(
    add_input: Input,
    add_version: Version,
    registry: Registry,
    delete_input: Input,
    delete_version: Version,
    clock: u32,
)
    requires
        AddOrder::decoded(add_input, add_version, registry) is Ok,
        delete_input.remaining() >= DeleteOrder::wire_len(delete_input, delete_version),
        DeleteOrder::wire_refno(delete_input, delete_version) == AddOrder::wire_refno(
            add_input,
            add_version,
        ),
    ensures
        ({
            let (added, after_add) = AddOrder::decoded(add_input, add_version, registry).unwrap();
            &&& DeleteOrder::decoded(
                delete_input,
                delete_version,
                later(after_add, clock),
            ) matches Ok((deleted, after_delete))
            &&& deleted.refno == added.refno
            &&& deleted.shares == added.shares
            &&& deleted.ticker == added.ticker
            &&& deleted.side == added.side
            &&& deleted.price == added.price
            &&& !after_delete.orders.contains_key(added.refno)
        }),
{
}

/// A cancel of no more shares than the add of the same reference opened
/// succeeds, leaves the difference in the registry, and reports the price,
/// ticker and side of that add.
pub proof fn lemma_cancel_reduces_added_order(
    add_input: Input,
    add_version: Version,
    registry: Registry,
    cancel_input: Input,
    cancel_version: Version,
    clock: u32,
)
    requires
        AddOrder::decoded(add_input, add_version, registry) is Ok,
        cancel_input.remaining() >= CancelOrder::wire_len(cancel_input, cancel_version),
        CancelOrder::wire_refno(cancel_input, cancel_version) == AddOrder::wire_refno(
            add_input,
            add_version,
        ),
        CancelOrder::wire_shares(cancel_input, cancel_version) <= AddOrder::decoded(
            add_input,
            add_version,
            registry,
        ).unwrap().0.shares,
    ensures
        ({
            let (added, after_add) = AddOrder::decoded(add_input, add_version, registry).unwrap();
            let cancelled_shares = CancelOrder::wire_shares(cancel_input, cancel_version);
            &&& CancelOrder::decoded(
                cancel_input,
                cancel_version,
                later(after_add, clock),
            ) matches Ok((cancelled, after_cancel))
            &&& cancelled.refno == added.refno
            &&& cancelled.shares == cancelled_shares
            &&& cancelled.price == added.price
            &&& cancelled.ticker == added.ticker
            &&& cancelled.side == added.side
            &&& after_cancel.orders.contains_key(added.refno)
            &&& after_cancel.orders[added.refno] == (OrderModel {
                shares: (added.shares - cancelled_shares) as u32,
                ..added.order()
            })
            &&& after_cancel.orders[added.refno].shares == added.shares - cancelled_shares
        }),
{
}

/// An execution of no more shares than the add of the same reference opened
/// succeeds, leaves the difference in the registry, and reports the price,
/// ticker and side of that add. It carries a printable flag and an execution
/// price when its kind says so, and neither of them otherwise.
pub proof fn lemma_execute_reduces_added_order(
    add_input: Input,
    add_version: Version,
    registry: Registry,
    execute_input: Input,
    execute_version: Version,
    clock: u32,
)
    requires
        AddOrder::decoded(add_input, add_version, registry) is Ok,
        execute_input.remaining() >= ExecuteOrder::wire_len(execute_input, execute_version),
        ExecuteOrder::wire_refno(execute_input, execute_version) == AddOrder::wire_refno(
            add_input,
            add_version,
        ),
        ExecuteOrder::wire_shares(execute_input, execute_version) <= AddOrder::decoded(
            add_input,
            add_version,
            registry,
        ).unwrap().0.shares,
    ensures
        ({
            let (added, after_add) = AddOrder::decoded(add_input, add_version, registry).unwrap();
            let executed_shares = ExecuteOrder::wire_shares(execute_input, execute_version);
            &&& ExecuteOrder::decoded(
                execute_input,
                execute_version,
                later(after_add, clock),
            ) matches Ok((executed, after_execute))
            &&& executed.refno == added.refno
            &&& executed.shares == executed_shares
            &&& executed.price == added.price
            &&& executed.ticker == added.ticker
            &&& executed.side == added.side
            &&& after_execute.orders.contains_key(added.refno)
            &&& after_execute.orders[added.refno] == (OrderModel {
                shares: (added.shares - executed_shares) as u32,
                ..added.order()
            })
            &&& after_execute.orders[added.refno].shares == added.shares - executed_shares
            &&& ExecuteOrder::wire_priced(execute_input) ==> executed.printable is Some
                && executed.execution_price is Some
            &&& !ExecuteOrder::wire_priced(execute_input) ==> executed.printable is None
                && executed.execution_price is None
        }),
{
}

/// A replace of the reference that the add before it opened succeeds and
/// yields a delete of that reference with the add's shares and price, then an
/// add of the new reference with the new shares and price, both marked as
/// coming from a replace and both with the add's ticker and side. Afterwards
/// the new reference is active with the new shares and price, and the old one,
/// unless the two are the same, is not.
pub proof fn lemma_replace_swaps_added_order(
    add_input: Input,
    add_version: Version,
    registry: Registry,
    replace_input: Input,
    replace_version: Version,
    clock: u32,
)
    requires
        AddOrder::decoded(add_input, add_version, registry) is Ok,
        replace_input.remaining() >= replace_wire_len(replace_version),
        replace_old_refno(replace_input, replace_version) == AddOrder::wire_refno(
            add_input,
            add_version,
        ),
    ensures
        ({
            let (added, after_add) = AddOrder::decoded(add_input, add_version, registry).unwrap();
            let new_refno = replace_new_refno(replace_input, replace_version);
            let new_shares = replace_new_shares(replace_input, replace_version);
            let new_price = replace_new_price(replace_input, replace_version);
            &&& replace_decoded(replace_input, replace_version, later(after_add, clock)) matches Ok(
                ((deleted, readded), after_replace),
            )
            &&& deleted.kind == 'D'
            &&& deleted.refno == added.refno
            &&& deleted.shares == added.shares
            &&& deleted.price == added.price
            &&& deleted.ticker == added.ticker
            &&& deleted.side == added.side
            &&& deleted.from_replace == Some(true)
            &&& readded.kind == 'A'
            &&& readded.refno == new_refno
            &&& readded.shares == new_shares
            &&& readded.price == new_price
            &&& readded.ticker == added.ticker
            &&& readded.side == added.side
            &&& readded.from_replace == Some(true)
            &&& readded.nanoseconds == deleted.nanoseconds
            &&& after_replace.orders.contains_key(new_refno)
            &&& after_replace.orders[new_refno] == readded.order()
            &&& new_refno != added.refno ==> !after_replace.orders.contains_key(added.refno)
        }),
{
}

/// A delete, cancel, execute or replace of a reference that is not active
/// fails with `UnknownOrder`, whenever the input holds the whole message. The
/// decoders leave the registry as it was on every failure.
pub proof fn lemma_inactive_reference_is_refused(input: Input, version: Version, registry: Registry)
    ensures
        input.remaining() >= DeleteOrder::wire_len(input, version) && !registry.orders.contains_key(
            DeleteOrder::wire_refno(input, version),
        ) ==> fails_with(
            DeleteOrder::decoded(input, version, registry),
            DecodeError::UnknownOrder { refno: DeleteOrder::wire_refno(input, version) },
        ),
        input.remaining() >= CancelOrder::wire_len(input, version) && !registry.orders.contains_key(
            CancelOrder::wire_refno(input, version),
        ) ==> fails_with(
            CancelOrder::decoded(input, version, registry),
            DecodeError::UnknownOrder { refno: CancelOrder::wire_refno(input, version) },
        ),
        input.remaining() >= ExecuteOrder::wire_len(input, version)
            && !registry.orders.contains_key(ExecuteOrder::wire_refno(input, version))
            ==> fails_with(
            ExecuteOrder::decoded(input, version, registry),
            DecodeError::UnknownOrder { refno: ExecuteOrder::wire_refno(input, version) },
        ),
        input.remaining() >= replace_wire_len(version) && !registry.orders.contains_key(
            replace_old_refno(input, version),
        ) ==> fails_with(
            replace_decoded(input, version, registry),
            DecodeError::UnknownOrder { refno: replace_old_refno(input, version) },
        ),
{
}

/// Once a delete has succeeded its reference is inactive, and so is the old
/// reference of a replace that has succeeded, unless the replace opened the
/// same reference again.
pub proof fn lemma_closed_reference_is_inactive(input: Input, version: Version, registry: Registry)
    ensures
        DeleteOrder::decoded(input, version, registry) matches Ok((deleted, after))
            ==> !after.orders.contains_key(deleted.refno),
        replace_decoded(input, version, registry) matches Ok(((deleted, added), after)) ==> (
        deleted.refno != added.refno ==> !after.orders.contains_key(deleted.refno)),
{
}

/// A reference is active after a message only if it was active before, or the
/// message is an add or a replace that opened it. Cancels, executions and
/// deletes open nothing.
pub proof fn lemma_only_adds_open_references(
    input: Input,
    version: Version,
    registry: Registry,
    refno: u64,
)
    requires
        !registry.orders.contains_key(refno),
    ensures
        AddOrder::decoded(input, version, registry) matches Ok((added, after)) ==> (
        after.orders.contains_key(refno) <==> refno == added.refno),
        replace_decoded(input, version, registry) matches Ok(((deleted, added), after)) ==> (
        after.orders.contains_key(refno) <==> refno == added.refno),
        DeleteOrder::decoded(input, version, registry) matches Ok((deleted, after))
            ==> !after.orders.contains_key(refno),
        CancelOrder::decoded(input, version, registry) matches Ok((cancelled, after))
            ==> !after.orders.contains_key(refno),
        ExecuteOrder::decoded(input, version, registry) matches Ok((executed, after))
            ==> !after.orders.contains_key(refno),
{
}

} // verus!
