use data_backed_nfts::{
    grant_access_with_fee, initialize, AccessGranted, CustomError, DataAccount, FeeTransfer,
    Identity, PaymentOutcome,
};

fn id(byte: u8) -> Identity {
    Identity::new([byte; 32])
}

fn record(expiry: i64) -> DataAccount {
    initialize(String::from("dataset-9"), String::from("u"), id(1), 3, expiry)
}

/// A payment ledger that counts what it is asked and answers as told.
struct Ledger {
    funds: u64,
    orders: Vec<FeeTransfer>,
}

impl Ledger {
    fn transfer(&mut self, order: FeeTransfer) -> PaymentOutcome {
        self.orders.push(order);
        if order.amount <= self.funds {
            self.funds -= order.amount;
            PaymentOutcome::Settled
        } else {
            PaymentOutcome::Rejected
        }
    }
}

fn access_with_fee(
    ledger: &mut Ledger,
    record: &DataAccount,
    balance: u64,
    now: i64,
    fee: u64,
) -> Result<AccessGranted, CustomError> {
    let pending = grant_access_with_fee(record, id(7), balance, now, fee, id(20), id(21))?;
    let outcome = ledger.transfer(pending.transfer);
    pending.settle(outcome)
}

#[test]
fn eligible_holder_pays_and_is_granted() {
    let mut ledger = Ledger { funds: 100, orders: Vec::new() };
    let got = access_with_fee(&mut ledger, &record(50), 1, 50, 30);
    assert_eq!(got, Ok(AccessGranted { user: id(7), dataset_id: String::from("dataset-9") }));
    assert_eq!(ledger.funds, 70);
    assert_eq!(
        ledger.orders,
        vec![FeeTransfer { from: id(20), to: id(21), authority: id(7), amount: 30 }]
    );
}

#[test]
fn no_transfer_is_ordered_without_holding() {
    let mut ledger = Ledger { funds: 100, orders: Vec::new() };
    let got = access_with_fee(&mut ledger, &record(50), 0, 10, 30);
    assert_eq!(got, Err(CustomError::NoAssetHeld));
    assert!(ledger.orders.is_empty());
    assert_eq!(ledger.funds, 100);
}

#[test]
fn no_transfer_is_ordered_after_expiry() {
    let mut ledger = Ledger { funds: 100, orders: Vec::new() };
    let got = access_with_fee(&mut ledger, &record(50), 1, 51, 30);
    assert_eq!(got, Err(CustomError::AccessExpired));
    assert!(ledger.orders.is_empty());
    assert_eq!(ledger.funds, 100);
}

#[test]
fn a_rejected_payment_fails_the_access() {
    let mut ledger = Ledger { funds: 10, orders: Vec::new() };
    let got = access_with_fee(&mut ledger, &record(50), 1, 10, 30);
    assert_eq!(got, Err(CustomError::PaymentTransferFailed));
    assert_eq!(ledger.orders.len(), 1);
    assert_eq!(ledger.funds, 10);
}

#[test]
fn the_order_names_payer_payee_signer_and_amount() {
    let pending = grant_access_with_fee(&record(50), id(7), 2, 0, u64::MAX, id(20), id(21));
    let pending = pending.expect("an eligible holder");
    assert_eq!(pending.transfer.from, id(20));
    assert_eq!(pending.transfer.to, id(21));
    assert_eq!(pending.transfer.authority, id(7));
    assert_eq!(pending.transfer.amount, u64::MAX);
    assert_eq!(pending.notice.user, id(7));
    assert_eq!(pending.notice.dataset_id, "dataset-9");
}

#[test]
fn settling_follows_the_ledger() {
    let first = grant_access_with_fee(&record(50), id(7), 1, 0, 5, id(20), id(21));
    let second = first.clone();
    assert_eq!(
        first.expect("eligible").settle(PaymentOutcome::Settled),
        Ok(AccessGranted { user: id(7), dataset_id: String::from("dataset-9") })
    );
    assert_eq!(
        second.expect("eligible").settle(PaymentOutcome::Rejected),
        Err(CustomError::PaymentTransferFailed)
    );
}

#[test]
fn a_fee_of_nothing_is_still_ordered() {
    let mut ledger = Ledger { funds: 0, orders: Vec::new() };
    let got = access_with_fee(&mut ledger, &record(50), 1, 10, 0);
    assert!(got.is_ok());
    assert_eq!(ledger.orders.len(), 1);
}
