//! A verified payment-order ledger.
//!
//! The ledger records orders keyed by a caller-supplied identifier, validates
//! an attached deposit against the claimed order amount, computes change for
//! overpayment, and marks orders as refunded on request. Outbound fund
//! transfers are modelled as an outbox of [`ledger::TransferRequest`] values
//! that a host adapter performs.

pub mod laws;
pub mod ledger;
pub mod order;
pub mod store;

pub use ledger::EcommerceContract;
pub use ledger::LedgerError;
pub use ledger::TransferRequest;
pub use ledger::TransferView;
pub use order::Order;
pub use order::OrderView;
pub use store::OrderStore;
