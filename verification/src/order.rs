//! The order record: one payment lifecycle keyed by an external identifier.

use vstd::prelude::*;

verus! {

/// Mathematical value of one order record.
#[verifier::ext_equal]
pub ghost struct OrderView {
    pub order_id: Seq<char>,
    pub payer_id: Seq<char>,
    pub amount: u128,
    pub received_amount: u128,
    pub is_completed: bool,
    pub is_refund: bool,
    pub created_at: u64,
}

/// Persisted record of one payment lifecycle.
///
/// * `order_id` is the caller-supplied unique key.
/// * `payer_id` identifies the account behind the most recent state
///   transition on this order.
/// * `amount` is the claimed order amount; `received_amount` the deposit
///   actually attached when it was paid.
/// * `is_completed` is set once a payment has been recorded; `is_refund`
///   once a refund has been executed.
/// * `created_at` is the timestamp captured at the original payment event.
#[derive(Debug, PartialEq, Eq)]
pub struct Order {
    pub order_id: String,
    pub payer_id: String,
    pub amount: u128,
    pub received_amount: u128,
    pub is_completed: bool,
    pub is_refund: bool,
    pub created_at: u64,
}

impl View for Order {
    type V = OrderView;

    open spec fn view(&self) -> OrderView {
        OrderView {
            order_id: self.order_id@,
            payer_id: self.payer_id@,
            amount: self.amount,
            received_amount: self.received_amount,
            is_completed: self.is_completed,
            is_refund: self.is_refund,
            created_at: self.created_at,
        }
    }
}

impl Clone for Order {
    fn clone(&self) -> (r: Self)
        ensures
            r@ == self@,
    {
        Order {
            order_id: self.order_id.clone(),
            payer_id: self.payer_id.clone(),
            amount: self.amount,
            received_amount: self.received_amount,
            is_completed: self.is_completed,
            is_refund: self.is_refund,
            created_at: self.created_at,
        }
    }
}

} // verus!
