use payment_request::address::{derive_address, escrow_namespace, pay_request_namespace, Address};
use payment_request::ledger::{transfer, Account, TransferError};
use payment_request::plain::{
    create_pay_request, escrow_address, request_address, settle_payment, sweep_funds,
    CreatePayRequest, PayRequest, PaymentRequestError, SettlePayment, SweepFunds,
};
use sha2::Digest;
use payment_request::plain::{open_pay_request, settle_stored_payment, sweep_stored_funds};
use payment_request::store::RequestStore;

const A: Address = [0xA1; 32];
const B: Address = [0xB2; 32];
const C: Address = [0xC3; 32];

fn created(owner: Address, id: u64, amount: u64) -> PayRequest {
    create_pay_request(&CreatePayRequest { receiver: owner }, id, amount).unwrap()
}

fn settle_ctx(req: PayRequest, payer_funds: u64) -> SettlePayment {
    SettlePayment {
        pay_request: req,
        escrow: Account { address: escrow_address(&req.receiver, req.request_id), lamports: 0 },
        payer: Account { address: B, lamports: payer_funds },
    }
}

fn sweep_ctx(req: PayRequest, escrow: Account, receiver: Address, funds: u64) -> SweepFunds {
    SweepFunds { pay_request: req, escrow, receiver: Account { address: receiver, lamports: funds } }
}

#[test]
fn create_settle_sweep_succeeds() {
    let req = created(A, 1, 100);
    assert_eq!(req.amount, 100);
    assert!(!req.is_settled && !req.is_swept);
    let mut s = settle_ctx(req, 1_000);
    assert_eq!(settle_payment(&mut s), Ok(()));
    assert!(s.pay_request.is_settled);
    assert_eq!(s.escrow.lamports, 100);
    assert_eq!(s.payer.lamports, 900);
    let mut w = sweep_ctx(s.pay_request, s.escrow, A, 5);
    assert_eq!(sweep_funds(&mut w), Ok(()));
    assert_eq!(w.escrow.lamports, 0);
    assert_eq!(w.receiver.lamports, 105);
    assert!(w.pay_request.is_swept);
}

#[test]
fn sweep_before_settle_fails_not_settled() {
    let req = created(A, 1, 100);
    let escrow = Account { address: escrow_address(&A, 1), lamports: 0 };
    let mut w = sweep_ctx(req, escrow, A, 0);
    assert_eq!(sweep_funds(&mut w), Err(PaymentRequestError::NotSettled));
    assert!(!w.pay_request.is_swept);
    assert_eq!(w.receiver.lamports, 0);
}

#[test]
fn settle_twice_fails_already_settled() {
    let mut s = settle_ctx(created(A, 2, 10), 100);
    assert_eq!(settle_payment(&mut s), Ok(()));
    assert_eq!(settle_payment(&mut s), Err(PaymentRequestError::AlreadySettled));
    assert_eq!(s.escrow.lamports, 10);
    assert_eq!(s.payer.lamports, 90);
}

#[test]
fn sweep_twice_fails_already_swept() {
    let mut s = settle_ctx(created(A, 3, 10), 100);
    assert_eq!(settle_payment(&mut s), Ok(()));
    let mut w = sweep_ctx(s.pay_request, s.escrow, A, 0);
    assert_eq!(sweep_funds(&mut w), Ok(()));
    assert_eq!(sweep_funds(&mut w), Err(PaymentRequestError::AlreadySwept));
    assert_eq!(w.receiver.lamports, 10);
}

#[test]
fn settle_of_swept_request_fails_already_swept() {
    let mut req = created(A, 3, 10);
    req.is_swept = true;
    let mut s = settle_ctx(req, 100);
    assert_eq!(settle_payment(&mut s), Err(PaymentRequestError::AlreadySwept));
}

#[test]
fn sweep_by_other_identity_is_refused() {
    let req = created(A, 4, 10);
    let escrow = Account { address: escrow_address(&A, 4), lamports: 0 };
    let mut w = sweep_ctx(req, escrow, C, 0);
    assert_eq!(sweep_funds(&mut w), Err(PaymentRequestError::UnauthorizedReceiver));
    let mut s = settle_ctx(req, 100);
    assert_eq!(settle_payment(&mut s), Ok(()));
    let mut w = sweep_ctx(s.pay_request, s.escrow, C, 0);
    assert_eq!(sweep_funds(&mut w), Err(PaymentRequestError::UnauthorizedReceiver));
    assert_eq!(w.escrow.lamports, 10);
}

#[test]
fn wrong_escrow_account_is_refused() {
    let req = created(A, 5, 10);
    let mut s = settle_ctx(req, 100);
    s.escrow.address = escrow_address(&A, 6);
    assert_eq!(settle_payment(&mut s), Err(PaymentRequestError::InvalidEscrowAccount));
    assert_eq!(s.payer.lamports, 100);
    let mut settled = req;
    settled.is_settled = true;
    let bogus = Account { address: request_address(&A, 5), lamports: 10 };
    let mut w = sweep_ctx(settled, bogus, A, 0);
    assert_eq!(sweep_funds(&mut w), Err(PaymentRequestError::InvalidEscrowAccount));
}

#[test]
fn settle_without_funds_fails() {
    let mut s = settle_ctx(created(A, 7, 100), 99);
    assert_eq!(settle_payment(&mut s), Err(PaymentRequestError::InsufficientFunds));
    assert!(!s.pay_request.is_settled);
    assert_eq!(s.payer.lamports, 99);
}

#[test]
fn settle_overflowing_escrow_fails() {
    let mut s = settle_ctx(created(A, 8, 2), 100);
    s.escrow.lamports = u64::MAX - 1;
    assert_eq!(settle_payment(&mut s), Err(PaymentRequestError::BalanceOverflow));
}

#[test]
fn sweep_of_underfunded_escrow_fails() {
    let mut req = created(A, 9, 50);
    req.is_settled = true;
    let escrow = Account { address: escrow_address(&A, 9), lamports: 49 };
    let mut w = sweep_ctx(req, escrow, A, 0);
    assert_eq!(sweep_funds(&mut w), Err(PaymentRequestError::InsufficientFunds));
    assert!(!w.pay_request.is_swept);
}

#[test]
fn transfer_moves_exact_amount() {
    let mut from = Account { address: A, lamports: 30 };
    let mut to = Account { address: B, lamports: 5 };
    assert_eq!(transfer(&mut from, &mut to, 30), Ok(()));
    assert_eq!((from.lamports, to.lamports), (0, 35));
    assert_eq!(transfer(&mut from, &mut to, 1), Err(TransferError::InsufficientFunds));
}

fn sha256_seed(ns: &[u8], owner: &Address, id: u64) -> [u8; 32] {
    let mut seed = ns.to_vec();
    seed.extend_from_slice(owner);
    seed.extend_from_slice(&id.to_le_bytes());
    sha2::Sha256::digest(&seed).into()
}

#[test]
fn derivation_is_sha256_of_seed() {
    assert_eq!(escrow_address(&A, 1), sha256_seed(b"escrow", &A, 1));
    assert_eq!(request_address(&A, 1), sha256_seed(b"pay_request", &A, 1));
    assert_eq!(escrow_namespace(), b"escrow".to_vec());
    assert_eq!(pay_request_namespace(), b"pay_request".to_vec());
}

#[test]
fn derivation_is_deterministic_and_separates_inputs() {
    assert_eq!(derive_address(b"escrow", &A, 1), derive_address(b"escrow", &A, 1));
    assert_ne!(derive_address(b"escrow", &A, 1), derive_address(b"pay_request", &A, 1));
    assert_ne!(derive_address(b"escrow", &A, 1), derive_address(b"escrow", &B, 1));
    assert_ne!(derive_address(b"escrow", &A, 1), derive_address(b"escrow", &A, 2));
    assert_ne!(escrow_address(&A, 1), request_address(&A, 1));
}

#[test]
fn entity_size_is_fixed() {
    assert_eq!(PayRequest::LEN, 58);
}

#[test]
fn stored_lifecycle_closes_request() {
    let mut store: RequestStore<PayRequest> = RequestStore::new();
    let key = open_pay_request(&mut store, &CreatePayRequest { receiver: A }, 1, 100).unwrap();
    assert_eq!(key, request_address(&A, 1));
    assert!(store.contains(&key));
    assert_eq!(
        open_pay_request(&mut store, &CreatePayRequest { receiver: A }, 1, 5),
        Err(PaymentRequestError::RequestExists)
    );
    assert_eq!(store.get(&key).unwrap().amount, 100);
    let mut escrow = Account { address: escrow_address(&A, 1), lamports: 0 };
    let mut payer = Account { address: B, lamports: 100 };
    let mut receiver = Account { address: A, lamports: 0 };
    assert_eq!(
        sweep_stored_funds(&mut store, &A, 1, &mut escrow, &mut receiver),
        Err(PaymentRequestError::NotSettled)
    );
    assert_eq!(settle_stored_payment(&mut store, &A, 1, &mut escrow, &mut payer), Ok(()));
    assert!(store.get(&key).unwrap().is_settled);
    assert_eq!((escrow.lamports, payer.lamports), (100, 0));
    assert_eq!(
        settle_stored_payment(&mut store, &A, 1, &mut escrow, &mut payer),
        Err(PaymentRequestError::AlreadySettled)
    );
    assert_eq!(sweep_stored_funds(&mut store, &A, 1, &mut escrow, &mut receiver), Ok(()));
    assert_eq!((escrow.lamports, receiver.lamports), (0, 100));
    assert!(!store.contains(&key));
    assert_eq!(
        sweep_stored_funds(&mut store, &A, 1, &mut escrow, &mut receiver),
        Err(PaymentRequestError::RequestNotFound)
    );
    assert_eq!(
        settle_stored_payment(&mut store, &A, 2, &mut escrow, &mut payer),
        Err(PaymentRequestError::RequestNotFound)
    );
}

#[test]
fn stored_requests_are_per_owner_and_id() {
    let mut store: RequestStore<PayRequest> = RequestStore::new();
    assert!(open_pay_request(&mut store, &CreatePayRequest { receiver: A }, 1, 1).is_ok());
    assert!(open_pay_request(&mut store, &CreatePayRequest { receiver: A }, 2, 1).is_ok());
    assert!(open_pay_request(&mut store, &CreatePayRequest { receiver: B }, 1, 1).is_ok());
    let removed = store.remove(&request_address(&A, 2)).unwrap();
    assert_eq!(removed.request_id, 2);
    assert!(store.contains(&request_address(&A, 1)));
    assert!(store.contains(&request_address(&B, 1)));
    assert!(!store.contains(&request_address(&A, 2)));
}
