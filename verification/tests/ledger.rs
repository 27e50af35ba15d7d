use order_ledger::EcommerceContract;
use order_ledger::LedgerError;

#[test]
fn test_pay_order() {
    let alice = "alice".to_owned();
    let mut contract = EcommerceContract::new(alice.clone());
    let order_amount: u128 = 1000;
    let change = contract
        .pay_order("order_1".to_owned(), order_amount, 1000, alice.clone(), 0)
        .unwrap();
    assert_eq!(change, 0);

    let order = contract.get_order("order_1".to_owned()).unwrap();

    assert_eq!(order.order_id, "order_1".to_owned());
    assert_eq!(order.amount, order_amount);
    assert_eq!(order.payer_id, alice);
    assert!(order.is_completed);
}

#[test]
fn test_pay_order_with_lack_balance() {
    let alice = "alice".to_owned();
    let mut contract = EcommerceContract::new(alice.clone());
    let order_amount: u128 = 2000;
    let result = contract.pay_order("order_1".to_owned(), order_amount, 1000, alice, 0);
    assert_eq!(result, Err(LedgerError::InsufficientDeposit));
}

#[test]
fn exact_payment_leaves_no_change() {
    let mut contract = EcommerceContract::new("owner".to_owned());
    let change = contract
        .pay_order("o1".to_owned(), 1000, 1000, "alice".to_owned(), 42)
        .unwrap();
    assert_eq!(change, 0);
    assert!(contract.transfers.is_empty());

    let order = contract.get_order("o1".to_owned()).unwrap();
    assert_eq!(order.amount, 1000);
    assert_eq!(order.received_amount, 1000);
    assert!(order.is_completed);
    assert!(!order.is_refund);
    assert_eq!(order.created_at, 42);
}

#[test]
fn overpayment_returns_change_once() {
    let mut contract = EcommerceContract::new("owner".to_owned());
    let change = contract
        .pay_order("o2".to_owned(), 1000, 1500, "alice".to_owned(), 42)
        .unwrap();
    assert_eq!(change, 500);
    assert_eq!(contract.transfers.len(), 1);
    assert_eq!(contract.transfers[0].to, "alice".to_owned());
    assert_eq!(contract.transfers[0].amount, 500);

    let order = contract.get_order("o2".to_owned()).unwrap();
    assert_eq!(order.amount, 1000);
    assert_eq!(order.received_amount, 1500);
}

#[test]
fn insufficient_deposit_leaves_no_record() {
    let mut contract = EcommerceContract::new("owner".to_owned());
    let result = contract.pay_order("o3".to_owned(), 2000, 1000, "alice".to_owned(), 42);
    assert_eq!(result, Err(LedgerError::InsufficientDeposit));
    assert!(contract.transfers.is_empty());
    assert_eq!(
        contract.get_order("o3".to_owned()),
        Err(LedgerError::NotFound)
    );
}

#[test]
fn get_order_unknown_id_fails() {
    let contract = EcommerceContract::new("owner".to_owned());
    assert_eq!(
        contract.get_order("missing".to_owned()),
        Err(LedgerError::NotFound)
    );
}

#[test]
fn refund_marks_order_and_transfers_once() {
    let mut contract = EcommerceContract::new("owner".to_owned());
    contract
        .pay_order("o1".to_owned(), 1000, 1000, "alice".to_owned(), 42)
        .unwrap();

    let refunded = contract.refund("o1".to_owned(), "alice".to_owned()).unwrap();
    assert!(refunded);
    assert_eq!(contract.transfers.len(), 1);
    assert_eq!(contract.transfers[0].to, "alice".to_owned());
    assert_eq!(contract.transfers[0].amount, 1000);

    let order = contract.get_order("o1".to_owned()).unwrap();
    assert!(order.is_refund);

    let again = contract.refund("o1".to_owned(), "alice".to_owned());
    assert_eq!(again, Err(LedgerError::AlreadyRefunded));
    assert_eq!(contract.transfers.len(), 1);
}

#[test]
fn refund_preserves_record_fields() {
    let mut contract = EcommerceContract::new("owner".to_owned());
    contract
        .pay_order("o4".to_owned(), 700, 900, "alice".to_owned(), 42)
        .unwrap();

    contract.refund("o4".to_owned(), "bob".to_owned()).unwrap();

    let order = contract.get_order("o4".to_owned()).unwrap();
    assert_eq!(order.order_id, "o4".to_owned());
    assert_eq!(order.amount, 700);
    assert_eq!(order.received_amount, 900);
    assert!(order.is_completed);
    assert_eq!(order.created_at, 42);
    assert!(order.is_refund);
    assert_eq!(order.payer_id, "bob".to_owned());
}

#[test]
fn refund_unknown_id_fails() {
    let mut contract = EcommerceContract::new("owner".to_owned());
    let result = contract.refund("missing".to_owned(), "alice".to_owned());
    assert_eq!(result, Err(LedgerError::NotFound));
    assert!(contract.transfers.is_empty());
}

#[test]
fn repeat_payment_overwrites_record() {
    let mut contract = EcommerceContract::new("owner".to_owned());
    contract
        .pay_order("o5".to_owned(), 1000, 1000, "alice".to_owned(), 1)
        .unwrap();
    contract
        .pay_order("o5".to_owned(), 300, 400, "bob".to_owned(), 2)
        .unwrap();

    let order = contract.get_order("o5".to_owned()).unwrap();
    assert_eq!(order.amount, 300);
    assert_eq!(order.received_amount, 400);
    assert_eq!(order.payer_id, "bob".to_owned());
    assert_eq!(order.created_at, 2);
}
