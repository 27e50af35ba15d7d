//! The payment ledger: deposit validation, change computation, and the
//! unpaid → paid → refunded lifecycle of an order.
//!
//! Outbound fund transfers are one-way requests to an external
//! funds-transfer collaborator. The ledger does not perform them itself:
//! it appends each request to an outbox, `transfers`, for a host adapter
//! to carry out. The contracts state exactly which requests each call
//! appends, so "exactly one transfer of this amount" is a proved fact
//! about the outbox.

use vstd::prelude::*;

use crate::order::Order;
use crate::order::OrderView;
use crate::store::OrderStore;

verus! {

/// Why a ledger call was refused. Every failure leaves the ledger
/// unchanged.
#[derive(Clone, Copy, Debug, PartialEq, Eq, Structural)]
pub enum LedgerError {
    /// The attached deposit is below the claimed order amount.
    InsufficientDeposit,
    /// No order is recorded under the given identifier.
    NotFound,
    /// The order was already refunded once.
    AlreadyRefunded,
}

/// Mathematical value of one outbound transfer request.
#[verifier::ext_equal]
pub ghost struct TransferView {
    pub to: Seq<char>,
    pub amount: u128,
}

/// A request that the funds-transfer collaborator send `amount` to the
/// account `to`. Fire and forget: the ledger never learns the outcome.
pub struct TransferRequest {
    pub to: String,
    pub amount: u128,
}

impl View for TransferRequest {
    type V = TransferView;

    open spec fn view(&self) -> TransferView {
        TransferView { to: self.to@, amount: self.amount }
    }
}

/// The change owed on a payment: the overpayment when there is one,
/// otherwise zero.
pub open spec fn change_amount(order_amount: u128, attached_deposit: u128) -> u128 {
    if attached_deposit > order_amount {
        (attached_deposit - order_amount) as u128
    } else {
        0
    }
}

/// The record that a successful payment writes: completed, not refunded,
/// with the claimed amount and the full attached deposit.
pub open spec fn paid_order_view(
    order_id: Seq<char>,
    payer_id: Seq<char>,
    order_amount: u128,
    attached_deposit: u128,
    now: u64,
) -> OrderView {
    OrderView {
        order_id,
        payer_id,
        amount: order_amount,
        received_amount: attached_deposit,
        is_completed: true,
        is_refund: false,
        created_at: now,
    }
}

/// The record that a successful refund writes: the stored record with
/// `is_refund` set and the payer replaced by the refund's requester.
pub open spec fn refunded_order_view(order: OrderView, requester_id: Seq<char>) -> OrderView {
    OrderView { payer_id: requester_id, is_refund: true, ..order }
}

/// Why a refund of the order recorded under `order_id` would be refused,
/// or `None` when it would go through.
pub open spec fn refund_refusal(
    orders: Map<Seq<char>, OrderView>,
    order_id: Seq<char>,
) -> Option<LedgerError> {
    if !orders.contains_key(order_id) {
        Some(LedgerError::NotFound)
    } else if orders[order_id].is_refund {
        Some(LedgerError::AlreadyRefunded)
    } else {
        None
    }
}

/// The order ledger: an order store, an outbox of transfer requests, and
/// the identity of the account that deployed it.
pub struct EcommerceContract {
    pub owner_id: String,
    pub orders: OrderStore,
    pub transfers: Vec<TransferRequest>,
}

impl EcommerceContract {
    /// Abstract value of the outbox: the transfer requests issued so far,
    /// oldest first.
    pub open spec fn transfer_log(&self) -> Seq<TransferView> {
        Seq::new(self.transfers@.len(), |i: int| self.transfers@[i]@)
    }

    /// Well-formedness of the ledger: every record sits under its own
    /// identifier, and a completed record never received less than its
    /// claimed amount.
    pub open spec fn inv(&self) -> bool {
        forall|key: Seq<char>| #[trigger]
            self.orders@.contains_key(key) ==> {
                &&& self.orders@[key].order_id == key
                &&& self.orders@[key].is_completed ==> self.orders@[key].received_amount
                    >= self.orders@[key].amount
            }
    }

    /// A fresh ledger: no orders, no transfer requests.
    pub fn new(owner_id: String) -> (contract: Self)
        ensures
            contract.inv(),
            contract.owner_id == owner_id,
            contract.orders@ == Map::<Seq<char>, OrderView>::empty(),
            contract.transfer_log() == Seq::<TransferView>::empty(),
    {
        let contract = EcommerceContract {
            owner_id,
            orders: OrderStore::new(),
            transfers: Vec::new(),
        };
        proof {
            assert(contract.transfer_log() =~= Seq::<TransferView>::empty());
        }
        contract
    }

    /// Records a payment of `order_amount` for `order_id`, funded by the
    /// deposit of `attached_deposit` that `payer_id` attached at time
    /// `now`.
    ///
    /// When the deposit covers the claimed amount, the order is written
    /// (overwriting any record under the same identifier), the
    /// overpayment — if any — is requested back to the payer through the
    /// outbox, and that change is returned. When the deposit falls short,
    /// the call fails with `InsufficientDeposit` and nothing changes.
    pub fn pay_order(
        &mut self,
        order_id: String,
        order_amount: u128,
        attached_deposit: u128,
        payer_id: String,
        now: u64,
    ) -> (r: Result<u128, LedgerError>)
        requires
            old(self).inv(),
        ensures
            final(self).inv(),
            final(self).owner_id == old(self).owner_id,
            attached_deposit < order_amount ==> {
                &&& r == Err::<u128, LedgerError>(LedgerError::InsufficientDeposit)
                &&& *final(self) == *old(self)
            },
            attached_deposit >= order_amount ==> {
                &&& r == Ok::<u128, LedgerError>(change_amount(order_amount, attached_deposit))
                &&& final(self).orders@ == old(self).orders@.insert(
                    order_id@,
                    paid_order_view(order_id@, payer_id@, order_amount, attached_deposit, now),
                )
                &&& attached_deposit > order_amount ==> final(self).transfer_log() == old(
                    self,
                ).transfer_log().push(
                    TransferView {
                        to: payer_id@,
                        amount: change_amount(order_amount, attached_deposit),
                    },
                )
                &&& attached_deposit == order_amount ==> final(self).transfer_log() == old(
                    self,
                ).transfer_log()
            },
    {
        if attached_deposit < order_amount {
            return Err(LedgerError::InsufficientDeposit);
        }
        let order = Order {
            order_id: order_id.clone(),
            payer_id: payer_id.clone(),
            amount: order_amount,
            received_amount: attached_deposit,
            is_completed: true,
            is_refund: false,
            created_at: now,
        };
        proof {
            assert(order@ =~= paid_order_view(
                order_id@,
                payer_id@,
                order_amount,
                attached_deposit,
                now,
            ));
        }
        self.orders.insert(order);
        if attached_deposit > order_amount {
            let change = attached_deposit - order_amount;
            let ghost log_before = self.transfer_log();
            self.transfers.push(TransferRequest { to: payer_id, amount: change });
            proof {
                assert(self.transfer_log() =~= log_before.push(
                    TransferView { to: payer_id@, amount: change },
                ));
            }
            Ok(change)
        } else {
            Ok(0)
        }
    }

    /// Returns the order recorded under `order_id`, or fails with
    /// `NotFound` when there is none. Read-only.
    pub fn get_order(&self, order_id: String) -> (r: Result<Order, LedgerError>)
        ensures
            match r {
                Ok(order) => self.orders@.contains_key(order_id@) && order@
                    == self.orders@[order_id@],
                Err(e) => e == LedgerError::NotFound && !self.orders@.contains_key(order_id@),
            },
    {
        match self.orders.get(&order_id) {
            Some(order) => Ok(order.clone()),
            None => Err(LedgerError::NotFound),
        }
    }

    /// Refunds the order recorded under `order_id` to `requester_id`.
    ///
    /// On a recorded, not yet refunded order: requests a transfer of the
    /// order's claimed amount to the requester through the outbox,
    /// rewrites the record with `is_refund` set and the requester as
    /// payer — preserving identifier, amounts, completion and creation
    /// time — and returns `true`. Fails with `NotFound` for an unknown
    /// identifier and with `AlreadyRefunded` for a second refund; either
    /// failure leaves the ledger unchanged.
    pub fn refund(&mut self, order_id: String, requester_id: String) -> (r: Result<
        bool,
        LedgerError,
    >)
        requires
            old(self).inv(),
        ensures
            final(self).inv(),
            final(self).owner_id == old(self).owner_id,
            match refund_refusal(old(self).orders@, order_id@) {
                Some(e) => r == Err::<bool, LedgerError>(e) && *final(self) == *old(self),
                None => {
                    &&& r == Ok::<bool, LedgerError>(true)
                    &&& final(self).orders@ == old(self).orders@.insert(
                        order_id@,
                        refunded_order_view(old(self).orders@[order_id@], requester_id@),
                    )
                    &&& final(self).transfer_log() == old(self).transfer_log().push(
                        TransferView {
                            to: requester_id@,
                            amount: old(self).orders@[order_id@].amount,
                        },
                    )
                },
            },
    {
        let current = match self.orders.get(&order_id) {
            Some(order) => order.clone(),
            None => {
                return Err(LedgerError::NotFound);
            },
        };
        if current.is_refund {
            return Err(LedgerError::AlreadyRefunded);
        }
        let amount = current.amount;
        let refunded = Order {
            order_id: current.order_id,
            payer_id: requester_id.clone(),
            amount: current.amount,
            received_amount: current.received_amount,
            is_completed: current.is_completed,
            is_refund: true,
            created_at: current.created_at,
        };
        proof {
            assert(refunded@ =~= refunded_order_view(old(self).orders@[order_id@], requester_id@));
        }
        let ghost log_before = self.transfer_log();
        self.transfers.push(TransferRequest { to: requester_id, amount });
        proof {
            assert(self.transfer_log() =~= log_before.push(
                TransferView { to: refunded.payer_id@, amount },
            ));
        }
        self.orders.insert(refunded);
        Ok(true)
    }
}

} // verus!
