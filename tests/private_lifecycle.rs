use payment_request::address::Address;
use payment_request::ledger::Account;
use payment_request::private::{
    create_zk_pay_request, settle_zk_payment, sweep_zk_funds, zk_escrow_address, zk_request_address,
    CreateZkPayRequest, SettleZkPayment, SweepZkFunds, ZkPayRequest, ZkPaymentRequestError,
};
use payment_request::proofs::{
    check_ownership_digest, check_payment_digest, check_range_digest, count_nonzero,
    generate_stealth_address, verify_bulletproof_payment, verify_bulletproof_range_proof,
    verify_stealth_ownership,
};
use sha2::Digest;
use payment_request::private::{open_zk_pay_request, settle_stored_zk_payment, sweep_stored_zk_funds};
use payment_request::store::RequestStore;

const A: Address = [0xA1; 32];
const B: Address = [0xB2; 32];
const C: Address = [0xC3; 32];
const EPH: [u8; 32] = [0x5E; 32];

fn payment_proof() -> Vec<u8> {
    vec![0x42; 64]
}

/// The range proof stored with each request of these tests.
fn range_proof() -> Vec<u8> {
    vec![0x17; 64]
}

/// The commitment that the stored `range_proof()` opens to `amount`.
fn commitment_for(amount: u64) -> [u8; 32] {
    let mut data = amount.to_le_bytes().to_vec();
    data.extend_from_slice(&range_proof());
    data.extend_from_slice(b"bulletproof_payment");
    sha2::Sha256::digest(&data).into()
}

fn create(min: u64, max: u64, amount: u64) -> Result<ZkPayRequest, ZkPaymentRequestError> {
    create_zk_pay_request(
        &CreateZkPayRequest { receiver: A },
        1,
        commitment_for(amount),
        range_proof(),
        min,
        max,
        EPH,
    )
}

fn settle_ctx(req: ZkPayRequest, payer_funds: u64) -> SettleZkPayment {
    let escrow = zk_escrow_address(&req.receiver, req.request_id);
    SettleZkPayment {
        pay_request: req,
        escrow: Account { address: escrow, lamports: 0 },
        payer: Account { address: B, lamports: payer_funds },
    }
}

fn ownership_proof() -> Vec<u8> {
    vec![0x33; 32]
}

#[test]
fn private_create_settle_sweep_succeeds() {
    let req = create(10, 20, 15).unwrap();
    assert_eq!(req.min_amount, 10);
    assert_eq!(req.max_amount, 20);
    assert_eq!(req.settlement_commitment, [0u8; 32]);
    assert!(req.ownership_proof.is_empty());
    let mut s = settle_ctx(req, 100);
    assert_eq!(settle_zk_payment(&mut s, 15, payment_proof(), 1_700_000_000), Ok(()));
    assert_eq!(s.escrow.lamports, 15);
    assert_eq!(s.payer.lamports, 85);
    assert_eq!(s.pay_request.settled_amount, 15);
    let mut data = B.to_vec();
    data.extend_from_slice(&15u64.to_le_bytes());
    data.extend_from_slice(&1_700_000_000i64.to_le_bytes());
    let expected: [u8; 32] = sha2::Sha256::digest(&data).into();
    assert_eq!(s.pay_request.settlement_commitment, expected);
    let mut w = SweepZkFunds {
        pay_request: s.pay_request.clone(),
        escrow: s.escrow,
        receiver: Account { address: A, lamports: 1 },
    };
    assert_eq!(sweep_zk_funds(&mut w, ownership_proof(), EPH), Ok(()));
    assert_eq!(w.escrow.lamports, 0);
    assert_eq!(w.receiver.lamports, 16);
    assert!(w.pay_request.is_swept);
    assert_eq!(w.pay_request.ownership_proof, ownership_proof());
    assert_eq!(sweep_zk_funds(&mut w, ownership_proof(), EPH), Err(ZkPaymentRequestError::AlreadySwept));
}

#[test]
fn private_create_rejects_inverted_range() {
    assert_eq!(create(20, 20, 15).unwrap_err(), ZkPaymentRequestError::InvalidRange);
    assert_eq!(create(30, 20, 15).unwrap_err(), ZkPaymentRequestError::InvalidRange);
    let short = create_zk_pay_request(&CreateZkPayRequest { receiver: A }, 1, [0; 32], vec![1; 3], 9, 1, EPH);
    assert_eq!(short.unwrap_err(), ZkPaymentRequestError::InvalidRange);
}

#[test]
fn private_create_rejects_bad_proof_length() {
    let short = create_zk_pay_request(&CreateZkPayRequest { receiver: A }, 1, [0; 32], vec![1; 63], 1, 9, EPH);
    assert_eq!(short.unwrap_err(), ZkPaymentRequestError::InvalidProof);
    let long = create_zk_pay_request(&CreateZkPayRequest { receiver: A }, 1, [0; 32], vec![1; 513], 1, 9, EPH);
    assert_eq!(long.unwrap_err(), ZkPaymentRequestError::InvalidProof);
    let max = create_zk_pay_request(&CreateZkPayRequest { receiver: A }, 1, [0; 32], vec![1; 512], 1, 9, EPH);
    assert!(max.is_ok());
}

#[test]
fn private_settle_out_of_range_fails() {
    let req = create(10, 20, 50).unwrap();
    let mut s = settle_ctx(req, 100);
    assert_eq!(
        settle_zk_payment(&mut s, 50, payment_proof(), 0),
        Err(ZkPaymentRequestError::AmountOutOfRange)
    );
    assert_eq!(
        settle_zk_payment(&mut s, 9, payment_proof(), 0),
        Err(ZkPaymentRequestError::AmountOutOfRange)
    );
    assert!(!s.pay_request.is_settled);
    assert_eq!(s.payer.lamports, 100);
}

#[test]
fn private_settle_bounds_are_inclusive() {
    let mut s = settle_ctx(create(10, 20, 20).unwrap(), 100);
    assert_eq!(settle_zk_payment(&mut s, 20, payment_proof(), 0), Ok(()));
    let mut s = settle_ctx(create(10, 20, 10).unwrap(), 100);
    assert_eq!(settle_zk_payment(&mut s, 10, payment_proof(), 0), Ok(()));
}

#[test]
fn private_settle_wrong_amount_for_commitment_fails() {
    let mut s = settle_ctx(create(10, 20, 15).unwrap(), 100);
    assert_eq!(
        settle_zk_payment(&mut s, 16, payment_proof(), 0),
        Err(ZkPaymentRequestError::InvalidPaymentProof)
    );
    assert!(!s.pay_request.is_settled);
    assert_eq!(s.payer.lamports, 100);
}

#[test]
fn private_settle_twice_fails() {
    let mut s = settle_ctx(create(10, 20, 15).unwrap(), 100);
    assert_eq!(settle_zk_payment(&mut s, 15, payment_proof(), 0), Ok(()));
    assert_eq!(settle_zk_payment(&mut s, 15, payment_proof(), 0), Err(ZkPaymentRequestError::AlreadySettled));
    assert_eq!(s.escrow.lamports, 15);
}

#[test]
fn private_settle_of_swept_request_fails() {
    let mut req = create(10, 20, 15).unwrap();
    req.is_swept = true;
    let mut s = settle_ctx(req, 100);
    assert_eq!(settle_zk_payment(&mut s, 15, payment_proof(), 0), Err(ZkPaymentRequestError::AlreadySwept));
}

#[test]
fn private_settle_escrow_and_funds_checked() {
    let mut s = settle_ctx(create(10, 20, 15).unwrap(), 100);
    s.escrow.address = zk_request_address(&A, 1);
    assert_eq!(settle_zk_payment(&mut s, 15, payment_proof(), 0), Err(ZkPaymentRequestError::InvalidEscrowAccount));
    let mut s = settle_ctx(create(10, 20, 15).unwrap(), 14);
    assert_eq!(settle_zk_payment(&mut s, 15, payment_proof(), 0), Err(ZkPaymentRequestError::InsufficientFunds));
    let mut s = settle_ctx(create(10, 20, 15).unwrap(), 100);
    s.escrow.lamports = u64::MAX;
    assert_eq!(settle_zk_payment(&mut s, 15, payment_proof(), 0), Err(ZkPaymentRequestError::BalanceOverflow));
}

fn settled_sweep(receiver: Address) -> SweepZkFunds {
    let mut s = settle_ctx(create(10, 20, 15).unwrap(), 100);
    assert_eq!(settle_zk_payment(&mut s, 15, payment_proof(), 7), Ok(()));
    SweepZkFunds { pay_request: s.pay_request, escrow: s.escrow, receiver: Account { address: receiver, lamports: 0 } }
}

#[test]
fn private_sweep_before_settle_fails() {
    let req = create(10, 20, 15).unwrap();
    let escrow = Account { address: zk_escrow_address(&A, 1), lamports: 0 };
    let mut w = SweepZkFunds { pay_request: req, escrow, receiver: Account { address: A, lamports: 0 } };
    assert_eq!(sweep_zk_funds(&mut w, ownership_proof(), EPH), Err(ZkPaymentRequestError::NotSettled));
}

#[test]
fn private_sweep_by_other_identity_fails() {
    let mut w = settled_sweep(C);
    assert_eq!(sweep_zk_funds(&mut w, ownership_proof(), EPH), Err(ZkPaymentRequestError::UnauthorizedReceiver));
    assert_eq!(w.escrow.lamports, 15);
}

#[test]
fn private_sweep_with_wrong_secret_fails() {
    let mut w = settled_sweep(A);
    assert_eq!(sweep_zk_funds(&mut w, ownership_proof(), [0x11; 32]), Err(ZkPaymentRequestError::UnauthorizedReceiver));
    assert!(!w.pay_request.is_swept);
}

#[test]
fn private_sweep_with_bad_proof_length_fails() {
    let mut w = settled_sweep(A);
    assert_eq!(sweep_zk_funds(&mut w, vec![0x33; 31], EPH), Err(ZkPaymentRequestError::InvalidReceiverProof));
    assert_eq!(sweep_zk_funds(&mut w, vec![0x33; 257], EPH), Err(ZkPaymentRequestError::InvalidReceiverProof));
    assert!(w.pay_request.ownership_proof.is_empty());
}

#[test]
fn private_sweep_wrong_escrow_fails() {
    let mut w = settled_sweep(A);
    w.escrow.address = A;
    assert_eq!(sweep_zk_funds(&mut w, ownership_proof(), EPH), Err(ZkPaymentRequestError::InvalidEscrowAccount));
}

#[test]
fn private_sweep_receiver_overflow_fails() {
    let mut w = settled_sweep(A);
    w.receiver.lamports = u64::MAX - 3;
    assert_eq!(sweep_zk_funds(&mut w, ownership_proof(), EPH), Err(ZkPaymentRequestError::BalanceOverflow));
    w.receiver.lamports = 0;
    w.escrow.lamports = 14;
    assert_eq!(sweep_zk_funds(&mut w, ownership_proof(), EPH), Err(ZkPaymentRequestError::InsufficientFunds));
}

#[test]
fn stealth_address_is_hkdf_of_inputs() {
    let mut ikm = A.to_vec();
    ikm.extend_from_slice(&9u64.to_le_bytes());
    ikm.extend_from_slice(&EPH);
    let mut okm = [0u8; 32];
    hkdf::Hkdf::<sha2::Sha256>::new(None, &ikm).expand(b"stealth-address", &mut okm).unwrap();
    assert_eq!(generate_stealth_address(&A, 9, &EPH), Ok(okm));
    assert_ne!(generate_stealth_address(&A, 9, &EPH), generate_stealth_address(&A, 10, &EPH));
    let req = create(1, 2, 1).unwrap();
    assert_eq!(Ok(req.stealth_address), generate_stealth_address(&A, 1, &EPH));
}

#[test]
fn range_proof_follows_sha3_digest() {
    let commitment = [0x01; 32];
    let proof = vec![0x17; 64];
    let mut h = sha3::Sha3_256::new();
    h.update(commitment);
    h.update(3u64.to_le_bytes());
    h.update(8u64.to_le_bytes());
    h.update(&proof);
    let digest: [u8; 32] = h.finalize().into();
    let expected = check_range_digest(&digest);
    assert_eq!(verify_bulletproof_range_proof(&commitment, &proof, 3, 8), expected);
    assert_eq!(expected, Ok(()));
}

#[test]
fn digest_checks_on_given_digests() {
    assert_eq!(count_nonzero(&[0, 1, 0, 2, 3]), 3);
    let mut d = [0u8; 32];
    assert_eq!(check_range_digest(&d), Err(ZkPaymentRequestError::InvalidProof));
    assert_eq!(check_ownership_digest(&d), Err(ZkPaymentRequestError::InvalidReceiverProof));
    for b in d.iter_mut().take(16) {
        *b = 1;
    }
    assert_eq!(check_range_digest(&d), Err(ZkPaymentRequestError::InvalidProof));
    d[16] = 1;
    assert_eq!(check_range_digest(&d), Ok(()));
    for b in d.iter_mut().take(20) {
        *b = 1;
    }
    assert_eq!(check_ownership_digest(&d), Err(ZkPaymentRequestError::InvalidReceiverProof));
    d[20] = 9;
    assert_eq!(check_ownership_digest(&d), Ok(()));
    assert_eq!(check_payment_digest(&d, &d), Ok(()));
    assert_eq!(check_payment_digest(&d, &[0; 32]), Err(ZkPaymentRequestError::InvalidPaymentProof));
}

#[test]
fn payment_and_ownership_checks() {
    assert_eq!(verify_bulletproof_payment(&commitment_for(12), 12, &range_proof()), Ok(()));
    assert_eq!(
        verify_bulletproof_payment(&commitment_for(12), 13, &range_proof()),
        Err(ZkPaymentRequestError::InvalidPaymentProof)
    );
    let stealth = generate_stealth_address(&A, 4, &EPH).unwrap();
    assert_eq!(verify_stealth_ownership(&stealth, &A, 4, &ownership_proof(), &EPH), Ok(()));
    assert_eq!(
        verify_stealth_ownership(&stealth, &A, 5, &ownership_proof(), &EPH),
        Err(ZkPaymentRequestError::UnauthorizedReceiver)
    );
}

#[test]
fn private_addresses_use_own_namespaces() {
    assert_ne!(zk_escrow_address(&A, 1), zk_request_address(&A, 1));
    assert_ne!(zk_escrow_address(&A, 1), payment_request::plain::escrow_address(&A, 1));
    assert_eq!(ZkPayRequest::LEN, 946);
}

#[test]
fn private_stored_lifecycle_closes_request() {
    let mut store: RequestStore<ZkPayRequest> = RequestStore::new();
    let ctx = CreateZkPayRequest { receiver: A };
    let key = open_zk_pay_request(&mut store, &ctx, 1, commitment_for(15), range_proof(), 10, 20, EPH).unwrap();
    assert_eq!(key, zk_request_address(&A, 1));
    assert_eq!(
        open_zk_pay_request(&mut store, &ctx, 1, commitment_for(15), range_proof(), 10, 20, EPH),
        Err(ZkPaymentRequestError::RequestExists)
    );
    assert_eq!(
        open_zk_pay_request(&mut store, &ctx, 2, commitment_for(15), range_proof(), 20, 10, EPH),
        Err(ZkPaymentRequestError::InvalidRange)
    );
    assert!(!store.contains(&zk_request_address(&A, 2)));
    let mut escrow = Account { address: zk_escrow_address(&A, 1), lamports: 0 };
    let mut payer = Account { address: B, lamports: 100 };
    let mut receiver = Account { address: A, lamports: 0 };
    assert_eq!(
        settle_stored_zk_payment(&mut store, &A, 1, &mut escrow, &mut payer, 50, payment_proof(), 0),
        Err(ZkPaymentRequestError::AmountOutOfRange)
    );
    assert_eq!(settle_stored_zk_payment(&mut store, &A, 1, &mut escrow, &mut payer, 15, payment_proof(), 0), Ok(()));
    assert_eq!(store.get(&key).unwrap().settled_amount, 15);
    assert_eq!(
        sweep_stored_zk_funds(&mut store, &A, 1, &mut escrow, &mut receiver, vec![1; 8], EPH),
        Err(ZkPaymentRequestError::InvalidReceiverProof)
    );
    assert!(store.contains(&key));
    assert_eq!(sweep_stored_zk_funds(&mut store, &A, 1, &mut escrow, &mut receiver, ownership_proof(), EPH), Ok(()));
    assert_eq!((escrow.lamports, receiver.lamports, payer.lamports), (0, 15, 85));
    assert!(!store.contains(&key));
    assert_eq!(
        sweep_stored_zk_funds(&mut store, &A, 1, &mut escrow, &mut receiver, ownership_proof(), EPH),
        Err(ZkPaymentRequestError::RequestNotFound)
    );
    assert_eq!(
        settle_stored_zk_payment(&mut store, &C, 1, &mut escrow, &mut payer, 15, payment_proof(), 0),
        Err(ZkPaymentRequestError::RequestNotFound)
    );
}

#[test]
fn private_settle_checks_stored_proof_not_payer_bytes() {
    let mut s = settle_ctx(create(10, 20, 15).unwrap(), 100);
    assert_eq!(settle_zk_payment(&mut s, 15, Vec::new(), 3), Ok(()));
    assert_eq!(s.escrow.lamports, 15);
    assert_eq!(s.pay_request.settled_amount, 15);
    let mut req = create(10, 20, 15).unwrap();
    req.amount_commitment = [9; 32];
    let mut s = settle_ctx(req, 100);
    assert_eq!(
        settle_zk_payment(&mut s, 15, payment_proof(), 3),
        Err(ZkPaymentRequestError::InvalidPaymentProof)
    );
    assert_eq!((s.escrow.lamports, s.payer.lamports), (0, 100));
}
