//! Private payment requests: the amount hides behind a commitment with a
//! range proof, the payee claims through a one-time stealth address, and the
//! escrow is derived from `("zk_escrow", receiver, request_id)`.

use vstd::prelude::*;
use vstd::bytes::{spec_u64_to_le_bytes, u64_to_le_bytes};
use crate::address::{
    Address, append_bytes, derive_address, derived_address, same_address, zk_escrow_namespace,
    zk_escrow_tag, zk_pay_request_namespace, zk_pay_request_tag,
};
use crate::digest::{sha256, sha256_of};
use crate::store::RequestStore;
use crate::ledger::{Account, EscrowAuthority, TransferError, credited, debited, transfer, transfer_outcome};
use crate::proofs::{
    MAX_OWNERSHIP_PROOF_LEN, MAX_RANGE_PROOF_LEN, generate_stealth_address, ownership_outcome,
    payment_outcome, range_proof_outcome, stealth_address_of, verify_bulletproof_payment,
    verify_bulletproof_range_proof, verify_stealth_ownership,
};

verus! {

/// A private payment request entity.
#[derive(Debug, Clone)]
pub struct ZkPayRequest {
    /// The payee, immutable after creation.
    pub receiver: Address,
    pub request_id: u64,
    /// Commitment to the hidden amount.
    pub amount_commitment: [u8; 32],
    /// Proof that the committed amount lies in `[min_amount, max_amount]`.
    pub amount_range_proof: Vec<u8>,
    /// One-time address the payee proves ownership of when sweeping.
    pub stealth_address: Address,
    pub min_amount: u64,
    pub max_amount: u64,
    /// The amount moved into escrow, set at settlement.
    pub settled_amount: u64,
    /// Digest binding payer, amount and time, set at settlement.
    pub settlement_commitment: [u8; 32],
    /// The ownership proof presented at the sweep, kept for audit.
    pub ownership_proof: Vec<u8>,
    pub is_settled: bool,
    pub is_swept: bool,
}

impl ZkPayRequest {
    /// Stored size, with the two proofs at their largest.
    pub const LEN: usize = 8 + 32 + 8 + 32 + 4 + 512 + 32 + 8 + 8 + 8 + 32 + 4 + 256 + 1 + 1;

    /// Bounds are ordered, proofs fit their storage, a settled amount lies
    /// within the bounds, and nothing is swept before it is settled.
    pub open spec fn wf(&self) -> bool {
        &&& self.min_amount < self.max_amount
        &&& self.amount_range_proof@.len() <= MAX_RANGE_PROOF_LEN
        &&& self.ownership_proof@.len() <= MAX_OWNERSHIP_PROOF_LEN
        &&& self.is_settled ==> self.min_amount <= self.settled_amount <= self.max_amount
        &&& self.is_swept ==> self.is_settled
    }
}

/// Errors of the private request lifecycle.
#[derive(Debug, Clone, Copy, PartialEq, Eq, Structural)]
pub enum ZkPaymentRequestError {
    AlreadySettled,
    AlreadySwept,
    NotSettled,
    UnauthorizedReceiver,
    InvalidProof,
    InvalidRange,
    InvalidCommitment,
    InvalidPaymentProof,
    InvalidReceiverProof,
    AmountOutOfRange,
    /// The escrow account handed in is not the one derived for the request.
    InvalidEscrowAccount,
    /// The paying side of a transfer holds too little.
    InsufficientFunds,
    /// The receiving side of a transfer would overflow.
    BalanceOverflow,
    /// A request with this owner and id is already stored.
    RequestExists,
    /// No request with this owner and id is stored.
    RequestNotFound,
}

/// The lifecycle error that a failed transfer surfaces as.
pub open spec fn zk_transfer_error(e: TransferError) -> ZkPaymentRequestError {
    match e {
        TransferError::InsufficientFunds => ZkPaymentRequestError::InsufficientFunds,
        TransferError::BalanceOverflow => ZkPaymentRequestError::BalanceOverflow,
    }
}

fn map_transfer_error(e: TransferError) -> (r: ZkPaymentRequestError)
    ensures
        r == zk_transfer_error(e),
{
    match e {
        TransferError::InsufficientFunds => ZkPaymentRequestError::InsufficientFunds,
        TransferError::BalanceOverflow => ZkPaymentRequestError::BalanceOverflow,
    }
}

/// The accounts of a private request creation: the payee who signs it.
#[derive(Debug, Clone, Copy)]
pub struct CreateZkPayRequest {
    pub receiver: Address,
}

/// The accounts of a private settlement.
#[derive(Debug, Clone)]
pub struct SettleZkPayment {
    pub pay_request: ZkPayRequest,
    pub escrow: Account,
    pub payer: Account,
}

/// The accounts of a private sweep.
#[derive(Debug, Clone)]
pub struct SweepZkFunds {
    pub pay_request: ZkPayRequest,
    pub escrow: Account,
    pub receiver: Account,
}

/// Whether `r` is the entity a creation stores for these arguments.
pub open spec fn is_new_zk_request(
    r: ZkPayRequest,
    receiver: Address,
    request_id: u64,
    commitment: Seq<u8>,
    range_proof: Seq<u8>,
    min_amount: u64,
    max_amount: u64,
    ephemeral: Seq<u8>,
) -> bool {
    &&& r.receiver == receiver
    &&& r.request_id == request_id
    &&& r.amount_commitment@ == commitment
    &&& r.amount_range_proof@ == range_proof
    &&& r.stealth_address@ == stealth_address_of(receiver@, request_id, ephemeral)
    &&& r.min_amount == min_amount
    &&& r.max_amount == max_amount
    &&& r.settled_amount == 0
    &&& r.settlement_commitment@ == Seq::new(32, |i: int| 0u8)
    &&& r.ownership_proof@.len() == 0
    &&& !r.is_settled
    &&& !r.is_swept
}

/// Whether `b` holds the same request terms as `a`: everything fixed at creation.
pub open spec fn same_terms(a: ZkPayRequest, b: ZkPayRequest) -> bool {
    &&& b.receiver == a.receiver
    &&& b.request_id == a.request_id
    &&& b.amount_commitment == a.amount_commitment
    &&& b.amount_range_proof@ == a.amount_range_proof@
    &&& b.stealth_address == a.stealth_address
    &&& b.min_amount == a.min_amount
    &&& b.max_amount == a.max_amount
}

/// The address of the escrow that belongs to `r`.
pub open spec fn zk_escrow_of(r: ZkPayRequest) -> Seq<u8> {
    derived_address(zk_escrow_tag(), r.receiver@, r.request_id)
}

/// The SHA-256 input of a settlement commitment: payer, little-endian amount,
/// little-endian timestamp.
pub open spec fn settlement_input(payer: Seq<u8>, amount: u64, unix_timestamp: i64) -> Seq<u8> {
    payer + spec_u64_to_le_bytes(amount) + spec_u64_to_le_bytes(unix_timestamp as u64)
}

/// The outcome of settling `amount`, checks in order. The revealed amount is
/// checked against the commitment and range proof stored at creation.
pub open spec fn zk_settle_outcome(ctx: SettleZkPayment, amount: u64) -> Result<(), ZkPaymentRequestError> {
    let r = ctx.pay_request;
    if r.is_settled {
        Err(ZkPaymentRequestError::AlreadySettled)
    } else if r.is_swept {
        Err(ZkPaymentRequestError::AlreadySwept)
    } else if amount < r.min_amount || amount > r.max_amount {
        Err(ZkPaymentRequestError::AmountOutOfRange)
    } else if payment_outcome(r.amount_commitment@, amount, r.amount_range_proof@) is Err {
        payment_outcome(r.amount_commitment@, amount, r.amount_range_proof@)
    } else if ctx.escrow.address@ != zk_escrow_of(r) {
        Err(ZkPaymentRequestError::InvalidEscrowAccount)
    } else {
        match transfer_outcome(ctx.payer, ctx.escrow, amount) {
            Ok(()) => Ok(()),
            Err(e) => Err(zk_transfer_error(e)),
        }
    }
}

/// Whether `post` is `pre` after a successful settlement of `amount` at
/// `unix_timestamp`.
pub open spec fn zk_settled(pre: SettleZkPayment, post: SettleZkPayment, amount: u64, unix_timestamp: i64) -> bool {
    &&& same_terms(pre.pay_request, post.pay_request)
    &&& post.pay_request.ownership_proof@ == pre.pay_request.ownership_proof@
    &&& post.pay_request.is_settled
    &&& post.pay_request.is_swept == pre.pay_request.is_swept
    &&& post.pay_request.settled_amount == amount
    &&& post.pay_request.settlement_commitment@ == sha256_of(settlement_input(pre.payer.address@, amount, unix_timestamp))
    &&& post.payer == debited(pre.payer, amount)
    &&& post.escrow == credited(pre.escrow, amount)
}

/// The outcome of a private sweep, checks in order: identity, state, the
/// ownership proof, the escrow, the transfer.
pub open spec fn zk_sweep_outcome(ctx: SweepZkFunds, ownership_proof: Seq<u8>, ephemeral_secret: Seq<u8>) -> Result<(), ZkPaymentRequestError> {
    let r = ctx.pay_request;
    if ctx.receiver.address@ != r.receiver@ {
        Err(ZkPaymentRequestError::UnauthorizedReceiver)
    } else if !r.is_settled {
        Err(ZkPaymentRequestError::NotSettled)
    } else if r.is_swept {
        Err(ZkPaymentRequestError::AlreadySwept)
    } else if ownership_outcome(r.stealth_address@, r.receiver@, r.request_id, ownership_proof, ephemeral_secret) is Err {
        ownership_outcome(r.stealth_address@, r.receiver@, r.request_id, ownership_proof, ephemeral_secret)
    } else if ctx.escrow.address@ != zk_escrow_of(r) {
        Err(ZkPaymentRequestError::InvalidEscrowAccount)
    } else {
        match transfer_outcome(ctx.escrow, ctx.receiver, r.settled_amount) {
            Ok(()) => Ok(()),
            Err(e) => Err(zk_transfer_error(e)),
        }
    }
}

/// Whether `post` is `pre` after a successful sweep with `ownership_proof`.
pub open spec fn zk_swept(pre: SweepZkFunds, post: SweepZkFunds, ownership_proof: Seq<u8>) -> bool {
    let amount = pre.pay_request.settled_amount;
    &&& same_terms(pre.pay_request, post.pay_request)
    &&& post.pay_request.ownership_proof@ == ownership_proof
    &&& post.pay_request.is_settled == pre.pay_request.is_settled
    &&& post.pay_request.is_swept
    &&& post.pay_request.settled_amount == amount
    &&& post.pay_request.settlement_commitment == pre.pay_request.settlement_commitment
    &&& post.escrow == debited(pre.escrow, amount)
    &&& post.receiver == credited(pre.receiver, amount)
}

/// The address where the private request `(receiver, request_id)` is stored.
pub fn zk_request_address(receiver: &Address, request_id: u64) -> (r: Address)
    ensures
        r@ == derived_address(zk_pay_request_tag(), receiver@, request_id),
{
    let ns = zk_pay_request_namespace();
    derive_address(ns.as_slice(), receiver, request_id)
}

/// The address of the escrow of the private request `(receiver, request_id)`.
pub fn zk_escrow_address(receiver: &Address, request_id: u64) -> (r: Address)
    ensures
        r@ == derived_address(zk_escrow_tag(), receiver@, request_id),
{
    let ns = zk_escrow_namespace();
    derive_address(ns.as_slice(), receiver, request_id)
}

/// Creates a private request once its range proof verifies; the stealth
/// address is derived from the receiver, the id and the ephemeral key.
pub fn create_zk_pay_request(
    ctx: &CreateZkPayRequest,
    request_id: u64,
    amount_commitment: [u8; 32],
    amount_range_proof: Vec<u8>,
    min_amount: u64,
    max_amount: u64,
    ephemeral_pubkey: [u8; 32],
) -> (r: Result<ZkPayRequest, ZkPaymentRequestError>)
    ensures
        match r {
            Ok(req) => range_proof_outcome(amount_commitment@, amount_range_proof@, min_amount, max_amount) is Ok
                && is_new_zk_request(req, ctx.receiver, request_id, amount_commitment@, amount_range_proof@, min_amount, max_amount, ephemeral_pubkey@)
                && req.wf(),
            Err(e) => range_proof_outcome(amount_commitment@, amount_range_proof@, min_amount, max_amount) == Err::<(), ZkPaymentRequestError>(e),
        },
{
    let stealth_address = match generate_stealth_address(&ctx.receiver, request_id, &ephemeral_pubkey) {
        Ok(a) => a,
        Err(e) => return Err(e),
    };
    match verify_bulletproof_range_proof(&amount_commitment, amount_range_proof.as_slice(), min_amount, max_amount) {
        Ok(()) => {},
        Err(e) => return Err(e),
    }
    let settlement_commitment = [0u8; 32];
    assert(settlement_commitment@ =~= Seq::new(32, |i: int| 0u8));
    Ok(ZkPayRequest {
        receiver: ctx.receiver,
        request_id,
        amount_commitment,
        amount_range_proof,
        stealth_address,
        min_amount,
        max_amount,
        settled_amount: 0,
        settlement_commitment,
        ownership_proof: Vec::new(),
        is_settled: false,
        is_swept: false,
    })
}

/// Settles a private request with a revealed `amount`: the amount must lie in
/// the request's bounds and be consistent with the commitment and range proof
/// stored at creation. `payment_proof` is part of the settlement interface and
/// is not consulted. The amount moves from the payer
/// into the escrow, and a commitment to payer, amount and `unix_timestamp` is
/// recorded. Nothing changes on failure.
pub fn settle_zk_payment(ctx: &mut SettleZkPayment, amount: u64, payment_proof: Vec<u8>, unix_timestamp: i64) -> (r: Result<(), ZkPaymentRequestError>)
    ensures
        r == zk_settle_outcome(*old(ctx), amount),
        r is Ok ==> zk_settled(*old(ctx), *final(ctx), amount, unix_timestamp),
        r is Err ==> *final(ctx) == *old(ctx),
{
    if ctx.pay_request.is_settled {
        return Err(ZkPaymentRequestError::AlreadySettled);
    }
    if ctx.pay_request.is_swept {
        return Err(ZkPaymentRequestError::AlreadySwept);
    }
    if amount < ctx.pay_request.min_amount || amount > ctx.pay_request.max_amount {
        return Err(ZkPaymentRequestError::AmountOutOfRange);
    }
    match verify_bulletproof_payment(&ctx.pay_request.amount_commitment, amount, ctx.pay_request.amount_range_proof.as_slice()) {
        Ok(()) => {},
        Err(e) => return Err(e),
    }
    let expected = zk_escrow_address(&ctx.pay_request.receiver, ctx.pay_request.request_id);
    if !same_address(&expected, &ctx.escrow.address) {
        return Err(ZkPaymentRequestError::InvalidEscrowAccount);
    }
    let mut data: Vec<u8> = Vec::new();
    append_bytes(&mut data, ctx.payer.address.as_slice());
    let a = u64_to_le_bytes(amount);
    append_bytes(&mut data, a.as_slice());
    let t = u64_to_le_bytes(unix_timestamp as u64);
    append_bytes(&mut data, t.as_slice());
    assert(data@ =~= settlement_input(ctx.payer.address@, amount, unix_timestamp));
    let commitment = sha256(data.as_slice());
    match transfer(&mut ctx.payer, &mut ctx.escrow, amount) {
        Ok(()) => {},
        Err(e) => return Err(map_transfer_error(e)),
    }
    ctx.pay_request.settlement_commitment = commitment;
    ctx.pay_request.settled_amount = amount;
    ctx.pay_request.is_settled = true;
    Ok(())
}

/// Sweeps a settled private request: the caller must be the receiver and
/// prove ownership of the stealth address; the escrow, signed for by the
/// protocol, pays the settled amount to the receiver, the ownership proof is
/// kept, and the request is marked swept. Nothing changes on failure.
pub fn sweep_zk_funds(ctx: &mut SweepZkFunds, ownership_proof: Vec<u8>, ephemeral_secret: [u8; 32]) -> (r: Result<(), ZkPaymentRequestError>)
    ensures
        r == zk_sweep_outcome(*old(ctx), ownership_proof@, ephemeral_secret@),
        r is Ok ==> zk_swept(*old(ctx), *final(ctx), ownership_proof@),
        r is Err ==> *final(ctx) == *old(ctx),
{
    if !same_address(&ctx.pay_request.receiver, &ctx.receiver.address) {
        return Err(ZkPaymentRequestError::UnauthorizedReceiver);
    }
    if !ctx.pay_request.is_settled {
        return Err(ZkPaymentRequestError::NotSettled);
    }
    if ctx.pay_request.is_swept {
        return Err(ZkPaymentRequestError::AlreadySwept);
    }
    match verify_stealth_ownership(
        &ctx.pay_request.stealth_address,
        &ctx.pay_request.receiver,
        ctx.pay_request.request_id,
        ownership_proof.as_slice(),
        &ephemeral_secret,
    ) {
        Ok(()) => {},
        Err(e) => return Err(e),
    }
    let ns = zk_escrow_namespace();
    let authority = EscrowAuthority::from_seed(ns.as_slice(), &ctx.pay_request.receiver, ctx.pay_request.request_id);
    if !authority.controls(&ctx.escrow) {
        return Err(ZkPaymentRequestError::InvalidEscrowAccount);
    }
    let amount = ctx.pay_request.settled_amount;
    match authority.release(&mut ctx.escrow, &mut ctx.receiver, amount) {
        Ok(()) => {},
        Err(e) => return Err(map_transfer_error(e)),
    }
    ctx.pay_request.ownership_proof = ownership_proof;
    ctx.pay_request.is_swept = true;
    Ok(())
}

/// Opens a private request in `store`, at the address derived from the
/// receiver and the id; refused with `RequestExists` where that address is
/// taken, else as `create_zk_pay_request` decides.
pub fn open_zk_pay_request(
    store: &mut RequestStore<ZkPayRequest>,
    ctx: &CreateZkPayRequest,
    request_id: u64,
    amount_commitment: [u8; 32],
    amount_range_proof: Vec<u8>,
    min_amount: u64,
    max_amount: u64,
    ephemeral_pubkey: [u8; 32],
) -> (r: Result<Address, ZkPaymentRequestError>)
    requires
        old(store).wf(),
    ensures
        final(store).wf(),
        ({
            let key = derived_address(zk_pay_request_tag(), ctx.receiver@, request_id);
            let verdict = range_proof_outcome(amount_commitment@, amount_range_proof@, min_amount, max_amount);
            match r {
                Ok(a) => a@ == key && !old(store)@.contains_key(key) && verdict is Ok
                    && final(store)@ == old(store)@.insert(key, final(store)@[key])
                    && is_new_zk_request(final(store)@[key], ctx.receiver, request_id, amount_commitment@,
                        amount_range_proof@, min_amount, max_amount, ephemeral_pubkey@),
                Err(e) => final(store)@ == old(store)@ && if old(store)@.contains_key(key) {
                    e == ZkPaymentRequestError::RequestExists
                } else {
                    verdict == Err::<(), ZkPaymentRequestError>(e)
                },
            }
        }),
{
    let key = zk_request_address(&ctx.receiver, request_id);
    if store.contains(&key) {
        return Err(ZkPaymentRequestError::RequestExists);
    }
    let req = match create_zk_pay_request(
        ctx, request_id, amount_commitment, amount_range_proof, min_amount, max_amount, ephemeral_pubkey,
    ) {
        Ok(req) => req,
        Err(e) => return Err(e),
    };
    store.insert_new(key, req);
    Ok(key)
}

/// Settles the stored private request of `(owner, request_id)`; refused with
/// `RequestNotFound` where none is stored. Nothing changes on failure.
pub fn settle_stored_zk_payment(
    store: &mut RequestStore<ZkPayRequest>,
    owner: &Address,
    request_id: u64,
    escrow: &mut Account,
    payer: &mut Account,
    amount: u64,
    payment_proof: Vec<u8>,
    unix_timestamp: i64,
) -> (r: Result<(), ZkPaymentRequestError>)
    requires
        old(store).wf(),
    ensures
        final(store).wf(),
        ({
            let key = derived_address(zk_pay_request_tag(), owner@, request_id);
            if !old(store)@.contains_key(key) {
                r == Err::<(), ZkPaymentRequestError>(ZkPaymentRequestError::RequestNotFound)
                    && final(store)@ == old(store)@ && *final(escrow) == *old(escrow) && *final(payer) == *old(payer)
            } else {
                let pre = SettleZkPayment { pay_request: old(store)@[key], escrow: *old(escrow), payer: *old(payer) };
                let post = SettleZkPayment { pay_request: final(store)@[key], escrow: *final(escrow), payer: *final(payer) };
                &&& r == zk_settle_outcome(pre, amount)
                &&& r is Ok ==> final(store)@ == old(store)@.insert(key, final(store)@[key])
                    && zk_settled(pre, post, amount, unix_timestamp)
                &&& r is Err ==> final(store)@ == old(store)@ && *final(escrow) == *old(escrow) && *final(payer) == *old(payer)
            }
        }),
{
    let key = zk_request_address(owner, request_id);
    let ghost before = store@;
    let req = match store.remove(&key) {
        Some(req) => req,
        None => return Err(ZkPaymentRequestError::RequestNotFound),
    };
    let mut ctx = SettleZkPayment { pay_request: req, escrow: *escrow, payer: *payer };
    let r = settle_zk_payment(&mut ctx, amount, payment_proof, unix_timestamp);
    let SettleZkPayment { pay_request, escrow: e, payer: p } = ctx;
    let ghost entity = pay_request;
    store.insert_new(key, pay_request);
    *escrow = e;
    *payer = p;
    assert(r is Err ==> store@ =~= before);
    assert(store@ =~= before.insert(key@, entity));
    r
}

/// Sweeps the stored private request of `(owner, request_id)`; on success the
/// request is closed and leaves the store. Refused with `RequestNotFound`
/// where none is stored. Nothing changes on failure.
pub fn sweep_stored_zk_funds(
    store: &mut RequestStore<ZkPayRequest>,
    owner: &Address,
    request_id: u64,
    escrow: &mut Account,
    receiver: &mut Account,
    ownership_proof: Vec<u8>,
    ephemeral_secret: [u8; 32],
) -> (r: Result<(), ZkPaymentRequestError>)
    requires
        old(store).wf(),
    ensures
        final(store).wf(),
        ({
            let key = derived_address(zk_pay_request_tag(), owner@, request_id);
            if !old(store)@.contains_key(key) {
                r == Err::<(), ZkPaymentRequestError>(ZkPaymentRequestError::RequestNotFound)
                    && final(store)@ == old(store)@ && *final(escrow) == *old(escrow) && *final(receiver) == *old(receiver)
            } else {
                let pre = SweepZkFunds { pay_request: old(store)@[key], escrow: *old(escrow), receiver: *old(receiver) };
                let amount = pre.pay_request.settled_amount;
                &&& r == zk_sweep_outcome(pre, ownership_proof@, ephemeral_secret@)
                &&& r is Ok ==> final(store)@ == old(store)@.remove(key)
                    && *final(escrow) == debited(*old(escrow), amount) && *final(receiver) == credited(*old(receiver), amount)
                &&& r is Err ==> final(store)@ == old(store)@ && *final(escrow) == *old(escrow) && *final(receiver) == *old(receiver)
            }
        }),
{
    let key = zk_request_address(owner, request_id);
    let ghost before = store@;
    let req = match store.remove(&key) {
        Some(req) => req,
        None => return Err(ZkPaymentRequestError::RequestNotFound),
    };
    let mut ctx = SweepZkFunds { pay_request: req, escrow: *escrow, receiver: *receiver };
    let r = sweep_zk_funds(&mut ctx, ownership_proof, ephemeral_secret);
    let SweepZkFunds { pay_request, escrow: e, receiver: c } = ctx;
    match r {
        Ok(()) => {},
        Err(err) => {
            store.insert_new(key, pay_request);
            assert(store@ =~= before);
            return Err(err);
        },
    }
    *escrow = e;
    *receiver = c;
    Ok(())
}

/// Sweeping before settling fails: a private request that was never settled,
/// swept by its owner, is refused with `NotSettled`, whatever proof comes with it.
pub proof fn lemma_zk_sweep_before_settle(ctx: SweepZkFunds, ownership_proof: Seq<u8>, ephemeral_secret: Seq<u8>)
    requires
        !ctx.pay_request.is_settled,
        ctx.receiver.address@ == ctx.pay_request.receiver@,
    ensures
        zk_sweep_outcome(ctx, ownership_proof, ephemeral_secret)
            == Err::<(), ZkPaymentRequestError>(ZkPaymentRequestError::NotSettled),
{
}

/// Settling twice fails: after a successful settlement, any further
/// settlement of the resulting request is refused with `AlreadySettled`.
pub proof fn lemma_zk_settle_after_settle(
    first: SettleZkPayment,
    after: SettleZkPayment,
    amount: u64,
    unix_timestamp: i64,
    second: SettleZkPayment,
    amount2: u64,
)
    requires
        zk_settled(first, after, amount, unix_timestamp),
        second.pay_request == after.pay_request,
    ensures
        zk_settle_outcome(second, amount2)
            == Err::<(), ZkPaymentRequestError>(ZkPaymentRequestError::AlreadySettled),
{
}

/// Sweeping twice fails: after a successful sweep, a further sweep of the
/// resulting request by its owner is refused with `AlreadySwept`.
pub proof fn lemma_zk_sweep_after_sweep(
    first: SweepZkFunds,
    after: SweepZkFunds,
    ownership_proof: Seq<u8>,
    ephemeral_secret: Seq<u8>,
    second: SweepZkFunds,
    ownership_proof2: Seq<u8>,
    ephemeral_secret2: Seq<u8>,
)
    requires
        zk_sweep_outcome(first, ownership_proof, ephemeral_secret) is Ok,
        zk_swept(first, after, ownership_proof),
        second.pay_request == after.pay_request,
        second.receiver.address@ == second.pay_request.receiver@,
    ensures
        zk_sweep_outcome(second, ownership_proof2, ephemeral_secret2)
            == Err::<(), ZkPaymentRequestError>(ZkPaymentRequestError::AlreadySwept),
{
}

/// Only the owner sweeps: a private sweep by any other identity is refused
/// with `UnauthorizedReceiver`, whatever state the request is in and
/// whatever proof comes with it.
pub proof fn lemma_zk_sweep_by_other_refused(ctx: SweepZkFunds, ownership_proof: Seq<u8>, ephemeral_secret: Seq<u8>)
    requires
        ctx.receiver.address@ != ctx.pay_request.receiver@,
    ensures
        zk_sweep_outcome(ctx, ownership_proof, ephemeral_secret)
            == Err::<(), ZkPaymentRequestError>(ZkPaymentRequestError::UnauthorizedReceiver),
{
}

/// Bounds are enforced. Creation with `min_amount >= max_amount` is refused
/// with `InvalidRange`, whatever the commitment and proof; settling an open
/// request with an amount outside `[min_amount, max_amount]` is refused with
/// `AmountOutOfRange`, whatever the proof.
pub proof fn lemma_range_enforced(
    commitment: Seq<u8>,
    range_proof: Seq<u8>,
    min_amount: u64,
    max_amount: u64,
    ctx: SettleZkPayment,
    amount: u64,
)
    ensures
        min_amount >= max_amount ==> range_proof_outcome(commitment, range_proof, min_amount, max_amount)
            == Err::<(), ZkPaymentRequestError>(ZkPaymentRequestError::InvalidRange),
        (!ctx.pay_request.is_settled && !ctx.pay_request.is_swept
            && (amount < ctx.pay_request.min_amount || amount > ctx.pay_request.max_amount))
            ==> zk_settle_outcome(ctx, amount)
            == Err::<(), ZkPaymentRequestError>(ZkPaymentRequestError::AmountOutOfRange),
{
}

/// Funds are conserved. A private settlement into an empty escrow leaves
/// exactly the settled amount there; the sweep that follows on that escrow
/// empties it and raises the payee's balance by exactly that amount.
pub proof fn lemma_zk_fund_conservation(
    s: SettleZkPayment,
    s_after: SettleZkPayment,
    amount: u64,
    unix_timestamp: i64,
    w: SweepZkFunds,
    w_after: SweepZkFunds,
    ownership_proof: Seq<u8>,
    ephemeral_secret: Seq<u8>,
)
    requires
        s.escrow.lamports == 0,
        zk_settle_outcome(s, amount) is Ok,
        zk_settled(s, s_after, amount, unix_timestamp),
        w.pay_request.settled_amount == s_after.pay_request.settled_amount,
        w.escrow == s_after.escrow,
        zk_sweep_outcome(w, ownership_proof, ephemeral_secret) is Ok,
        zk_swept(w, w_after, ownership_proof),
    ensures
        s_after.escrow.lamports == amount,
        s_after.payer.lamports + s_after.escrow.lamports == s.payer.lamports + s.escrow.lamports,
        w_after.escrow.lamports == 0,
        w_after.receiver.lamports == w.receiver.lamports + amount,
{
}

/// Settlement is owed: an open private request whose stored commitment and
/// range proof accept an in-range amount, settled from a payer who holds that
/// amount into its own empty escrow, succeeds; the escrow then holds exactly
/// the amount and the request records it as settled.
pub proof fn lemma_zk_settle_fills_escrow(s: SettleZkPayment, s_after: SettleZkPayment, amount: u64, unix_timestamp: i64)
    requires
        !s.pay_request.is_settled,
        !s.pay_request.is_swept,
        s.pay_request.min_amount <= amount <= s.pay_request.max_amount,
        payment_outcome(s.pay_request.amount_commitment@, amount, s.pay_request.amount_range_proof@) is Ok,
        s.escrow.address@ == zk_escrow_of(s.pay_request),
        s.escrow.lamports == 0,
        s.payer.lamports >= amount,
        zk_settled(s, s_after, amount, unix_timestamp),
    ensures
        zk_settle_outcome(s, amount) is Ok,
        s_after.escrow.lamports == amount,
        s_after.payer.lamports == s.payer.lamports - amount,
        s_after.pay_request.settled_amount == amount,
        s_after.pay_request.is_settled,
{
}

/// Sweeping is owed: a settled, unswept private request, swept by its owner
/// with a valid ownership proof from its own escrow holding exactly the
/// settled amount, succeeds where the receiver's balance can take the amount;
/// the escrow ends empty and the receiver gains exactly the settled amount.
/// The storage deposit of the closed entity is the host's and is not counted.
pub proof fn lemma_zk_sweep_empties_escrow(
    w: SweepZkFunds,
    w_after: SweepZkFunds,
    ownership_proof: Seq<u8>,
    ephemeral_secret: Seq<u8>,
)
    requires
        w.receiver.address@ == w.pay_request.receiver@,
        w.pay_request.is_settled,
        !w.pay_request.is_swept,
        ownership_outcome(w.pay_request.stealth_address@, w.pay_request.receiver@, w.pay_request.request_id,
            ownership_proof, ephemeral_secret) is Ok,
        w.escrow.address@ == zk_escrow_of(w.pay_request),
        w.escrow.lamports == w.pay_request.settled_amount,
        w.receiver.lamports + w.pay_request.settled_amount <= u64::MAX,
        zk_swept(w, w_after, ownership_proof),
    ensures
        zk_sweep_outcome(w, ownership_proof, ephemeral_secret) is Ok,
        w_after.escrow.lamports == 0,
        w_after.receiver.lamports == w.receiver.lamports + w.pay_request.settled_amount,
        w_after.pay_request.is_swept,
{
}

/// Both transitions keep a well-formed private request well-formed.
pub proof fn lemma_zk_transitions_preserve_wf(
    s: SettleZkPayment,
    s_after: SettleZkPayment,
    amount: u64,
    unix_timestamp: i64,
    w: SweepZkFunds,
    w_after: SweepZkFunds,
    ownership_proof: Seq<u8>,
    ephemeral_secret: Seq<u8>,
)
    requires
        s.pay_request.wf(),
        w.pay_request.wf(),
    ensures
        zk_settle_outcome(s, amount) is Ok && zk_settled(s, s_after, amount, unix_timestamp)
            ==> s_after.pay_request.wf(),
        zk_sweep_outcome(w, ownership_proof, ephemeral_secret) is Ok && zk_swept(w, w_after, ownership_proof)
            ==> w_after.pay_request.wf(),
{
}

} // verus!
