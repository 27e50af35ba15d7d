//! Laws of the ledger that relate several operations, proved over the
//! same spec functions that the operations' contracts use.

use vstd::prelude::*;

use crate::ledger::LedgerError;
use crate::ledger::paid_order_view;
use crate::ledger::refund_refusal;
use crate::ledger::refunded_order_view;
use crate::order::OrderView;

verus! {

/// After a payment whose deposit covers the claimed amount, the record
/// looked up under the order's identifier shows the claimed amount, the
/// full attached deposit, completion, and no refund.
pub proof fn lemma_pay_order_then_get_order(
    orders: Map<Seq<char>, OrderView>,
    order_id: Seq<char>,
    payer_id: Seq<char>,
    order_amount: u128,
    attached_deposit: u128,
    now: u64,
)
    requires
        attached_deposit >= order_amount,
    ensures
        ({
            let after = orders.insert(
                order_id,
                paid_order_view(order_id, payer_id, order_amount, attached_deposit, now),
            );
            &&& after.contains_key(order_id)
            &&& after[order_id].amount == order_amount
            &&& after[order_id].received_amount == attached_deposit
            &&& after[order_id].is_completed
            &&& !after[order_id].is_refund
            &&& after[order_id].payer_id == payer_id
            &&& after[order_id].created_at == now
        }),
{
}

/// A refund of a completed, not yet refunded order goes through, marks
/// the record refunded, and a second refund of the same order is refused
/// as already refunded.
pub proof fn lemma_refund_only_once(
    orders: Map<Seq<char>, OrderView>,
    order_id: Seq<char>,
    requester_id: Seq<char>,
)
    requires
        orders.contains_key(order_id),
        orders[order_id].is_completed,
        !orders[order_id].is_refund,
    ensures
        refund_refusal(orders, order_id) is None,
        ({
            let after = orders.insert(
                order_id,
                refunded_order_view(orders[order_id], requester_id),
            );
            &&& after[order_id].is_refund
            &&& refund_refusal(after, order_id) == Some(LedgerError::AlreadyRefunded)
        }),
{
}

/// The rewrite that a refund performs preserves the order's identifier,
/// claimed amount, received amount, completion flag and creation time.
pub proof fn lemma_refund_preserves_record(order: OrderView, requester_id: Seq<char>)
    ensures
        refunded_order_view(order, requester_id).order_id == order.order_id,
        refunded_order_view(order, requester_id).amount == order.amount,
        refunded_order_view(order, requester_id).received_amount == order.received_amount,
        refunded_order_view(order, requester_id).is_completed == order.is_completed,
        refunded_order_view(order, requester_id).created_at == order.created_at,
{
}

} // verus!
