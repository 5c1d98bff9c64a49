//! Plain payment requests: the amount is public, the escrow is derived from
//! `("escrow", receiver, request_id)`.

use vstd::prelude::*;
use crate::address::{
    Address, derive_address, derived_address, escrow_namespace, escrow_tag, pay_request_namespace, same_address,
    pay_request_tag,
};
use crate::store::RequestStore;
use crate::ledger::{Account, EscrowAuthority, TransferError, credited, debited, transfer, transfer_outcome};

verus! {

/// A plain payment request entity.
#[derive(Debug, Clone, Copy)]
pub struct PayRequest {
    /// The payee, immutable after creation.
    pub receiver: Address,
    pub request_id: u64,
    /// The requested amount, fixed at creation.
    pub amount: u64,
    pub is_settled: bool,
    pub is_swept: bool,
}

impl PayRequest {
    /// Stored size: discriminator, receiver, request id, amount and two flags.
    pub const LEN: usize = 8 + 32 + 8 + 8 + 1 + 1;

    /// A request is never swept without having been settled.
    pub open spec fn wf(&self) -> bool {
        self.is_swept ==> self.is_settled
    }
}

/// Errors of the plain request lifecycle.
#[derive(Debug, Clone, Copy, PartialEq, Eq, Structural)]
pub enum PaymentRequestError {
    AlreadySettled,
    AlreadySwept,
    NotSettled,
    UnauthorizedReceiver,
    /// The escrow account handed in is not the one derived for the request.
    InvalidEscrowAccount,
    /// The paying side of a transfer holds too little.
    InsufficientFunds,
    /// The receiving side of a transfer would overflow.
    BalanceOverflow,
    /// A request with this owner and id is already stored.
    RequestExists,
    /// No request with this owner and id is stored.
    RequestNotFound,
}

/// The lifecycle error that a failed transfer surfaces as.
pub open spec fn transfer_error(e: TransferError) -> PaymentRequestError {
    match e {
        TransferError::InsufficientFunds => PaymentRequestError::InsufficientFunds,
        TransferError::BalanceOverflow => PaymentRequestError::BalanceOverflow,
    }
}

fn map_transfer_error(e: TransferError) -> (r: PaymentRequestError)
    ensures
        r == transfer_error(e),
{
    match e {
        TransferError::InsufficientFunds => PaymentRequestError::InsufficientFunds,
        TransferError::BalanceOverflow => PaymentRequestError::BalanceOverflow,
    }
}

/// The accounts of a request creation: the payee who signs it.
#[derive(Debug, Clone, Copy)]
pub struct CreatePayRequest {
    pub receiver: Address,
}

/// The accounts of a settlement.
#[derive(Debug, Clone, Copy)]
pub struct SettlePayment {
    pub pay_request: PayRequest,
    pub escrow: Account,
    pub payer: Account,
}

/// The accounts of a sweep.
#[derive(Debug, Clone, Copy)]
pub struct SweepFunds {
    pub pay_request: PayRequest,
    pub escrow: Account,
    pub receiver: Account,
}

/// The entity a creation stores.
pub open spec fn new_request(receiver: Address, request_id: u64, amount: u64) -> PayRequest {
    PayRequest { receiver, request_id, amount, is_settled: false, is_swept: false }
}

/// The address of the escrow that belongs to `r`.
pub open spec fn escrow_of(r: PayRequest) -> Seq<u8> {
    derived_address(escrow_tag(), r.receiver@, r.request_id)
}

/// The outcome of a settlement on the given accounts, checks in order.
pub open spec fn settle_outcome(ctx: SettlePayment) -> Result<(), PaymentRequestError> {
    let r = ctx.pay_request;
    if r.is_settled {
        Err(PaymentRequestError::AlreadySettled)
    } else if r.is_swept {
        Err(PaymentRequestError::AlreadySwept)
    } else if ctx.escrow.address@ != escrow_of(r) {
        Err(PaymentRequestError::InvalidEscrowAccount)
    } else {
        match transfer_outcome(ctx.payer, ctx.escrow, r.amount) {
            Ok(()) => Ok(()),
            Err(e) => Err(transfer_error(e)),
        }
    }
}

/// The accounts after a successful settlement: `amount` moved from payer to
/// escrow, the request marked settled.
pub open spec fn settled(pre: SettlePayment) -> SettlePayment {
    let amount = pre.pay_request.amount;
    SettlePayment {
        pay_request: PayRequest { is_settled: true, ..pre.pay_request },
        escrow: credited(pre.escrow, amount),
        payer: debited(pre.payer, amount),
    }
}

/// The outcome of a sweep on the given accounts, checks in order.
pub open spec fn sweep_outcome(ctx: SweepFunds) -> Result<(), PaymentRequestError> {
    let r = ctx.pay_request;
    if ctx.receiver.address@ != r.receiver@ {
        Err(PaymentRequestError::UnauthorizedReceiver)
    } else if !r.is_settled {
        Err(PaymentRequestError::NotSettled)
    } else if r.is_swept {
        Err(PaymentRequestError::AlreadySwept)
    } else if ctx.escrow.address@ != escrow_of(r) {
        Err(PaymentRequestError::InvalidEscrowAccount)
    } else {
        match transfer_outcome(ctx.escrow, ctx.receiver, r.amount) {
            Ok(()) => Ok(()),
            Err(e) => Err(transfer_error(e)),
        }
    }
}

/// The accounts after a successful sweep: `amount` moved from escrow to
/// receiver, the request marked swept.
pub open spec fn swept(pre: SweepFunds) -> SweepFunds {
    let amount = pre.pay_request.amount;
    SweepFunds {
        pay_request: PayRequest { is_swept: true, ..pre.pay_request },
        escrow: debited(pre.escrow, amount),
        receiver: credited(pre.receiver, amount),
    }
}

/// The address where the request `(receiver, request_id)` is stored.
pub fn request_address(receiver: &Address, request_id: u64) -> (r: Address)
    ensures
        r@ == derived_address(pay_request_tag(), receiver@, request_id),
{
    let ns = pay_request_namespace();
    derive_address(ns.as_slice(), receiver, request_id)
}

/// The address of the escrow of the request `(receiver, request_id)`.
pub fn escrow_address(receiver: &Address, request_id: u64) -> (r: Address)
    ensures
        r@ == derived_address(escrow_tag(), receiver@, request_id),
{
    let ns = escrow_namespace();
    derive_address(ns.as_slice(), receiver, request_id)
}

/// Creates a request for `amount` payable to the signing receiver.
pub fn create_pay_request(ctx: &CreatePayRequest, request_id: u64, amount: u64) -> (r: Result<PayRequest, PaymentRequestError>)
    ensures
        r == Ok::<PayRequest, PaymentRequestError>(new_request(ctx.receiver, request_id, amount)),
{
    Ok(PayRequest { receiver: ctx.receiver, request_id, amount, is_settled: false, is_swept: false })
}

/// Settles a request: moves its amount from the payer into its escrow and
/// marks it settled. Nothing changes on failure.
pub fn settle_payment(ctx: &mut SettlePayment) -> (r: Result<(), PaymentRequestError>)
    ensures
        r == settle_outcome(*old(ctx)),
        r is Ok ==> *final(ctx) == settled(*old(ctx)),
        r is Err ==> *final(ctx) == *old(ctx),
{
    if ctx.pay_request.is_settled {
        return Err(PaymentRequestError::AlreadySettled);
    }
    if ctx.pay_request.is_swept {
        return Err(PaymentRequestError::AlreadySwept);
    }
    let expected = escrow_address(&ctx.pay_request.receiver, ctx.pay_request.request_id);
    if !same_address(&expected, &ctx.escrow.address) {
        return Err(PaymentRequestError::InvalidEscrowAccount);
    }
    let amount = ctx.pay_request.amount;
    match transfer(&mut ctx.payer, &mut ctx.escrow, amount) {
        Ok(()) => {},
        Err(e) => return Err(map_transfer_error(e)),
    }
    ctx.pay_request.is_settled = true;
    Ok(())
}

/// Sweeps a settled request: the escrow, signed for by the protocol, pays
/// the amount to the receiver, and the request is marked swept. Nothing
/// changes on failure.
pub fn sweep_funds(ctx: &mut SweepFunds) -> (r: Result<(), PaymentRequestError>)
    ensures
        r == sweep_outcome(*old(ctx)),
        r is Ok ==> *final(ctx) == swept(*old(ctx)),
        r is Err ==> *final(ctx) == *old(ctx),
{
    if !same_address(&ctx.pay_request.receiver, &ctx.receiver.address) {
        return Err(PaymentRequestError::UnauthorizedReceiver);
    }
    if !ctx.pay_request.is_settled {
        return Err(PaymentRequestError::NotSettled);
    }
    if ctx.pay_request.is_swept {
        return Err(PaymentRequestError::AlreadySwept);
    }
    let ns = escrow_namespace();
    let authority = EscrowAuthority::from_seed(ns.as_slice(), &ctx.pay_request.receiver, ctx.pay_request.request_id);
    if !authority.controls(&ctx.escrow) {
        return Err(PaymentRequestError::InvalidEscrowAccount);
    }
    let amount = ctx.pay_request.amount;
    match authority.release(&mut ctx.escrow, &mut ctx.receiver, amount) {
        Ok(()) => {},
        Err(e) => return Err(map_transfer_error(e)),
    }
    ctx.pay_request.is_swept = true;
    Ok(())
}

/// Opens a request in `store`, at the address derived from the receiver and
/// the id; refused with `RequestExists` where that address is taken.
pub fn open_pay_request(
    store: &mut RequestStore<PayRequest>,
    ctx: &CreatePayRequest,
    request_id: u64,
    amount: u64,
) -> (r: Result<Address, PaymentRequestError>)
    requires
        old(store).wf(),
    ensures
        final(store).wf(),
        ({
            let key = derived_address(pay_request_tag(), ctx.receiver@, request_id);
            match r {
                Ok(a) => a@ == key && !old(store)@.contains_key(key)
                    && final(store)@ == old(store)@.insert(key, new_request(ctx.receiver, request_id, amount)),
                Err(e) => e == PaymentRequestError::RequestExists && old(store)@.contains_key(key)
                    && final(store)@ == old(store)@,
            }
        }),
{
    let key = request_address(&ctx.receiver, request_id);
    if store.contains(&key) {
        return Err(PaymentRequestError::RequestExists);
    }
    let req = match create_pay_request(ctx, request_id, amount) {
        Ok(req) => req,
        Err(e) => return Err(e),
    };
    store.insert_new(key, req);
    Ok(key)
}

/// Settles the stored request of `(owner, request_id)` from `payer` into
/// `escrow`; refused with `RequestNotFound` where none is stored. Nothing
/// changes on failure.
pub fn settle_stored_payment(
    store: &mut RequestStore<PayRequest>,
    owner: &Address,
    request_id: u64,
    escrow: &mut Account,
    payer: &mut Account,
) -> (r: Result<(), PaymentRequestError>)
    requires
        old(store).wf(),
    ensures
        final(store).wf(),
        ({
            let key = derived_address(pay_request_tag(), owner@, request_id);
            if !old(store)@.contains_key(key) {
                r == Err::<(), PaymentRequestError>(PaymentRequestError::RequestNotFound)
                    && final(store)@ == old(store)@ && *final(escrow) == *old(escrow) && *final(payer) == *old(payer)
            } else {
                let pre = SettlePayment { pay_request: old(store)@[key], escrow: *old(escrow), payer: *old(payer) };
                &&& r == settle_outcome(pre)
                &&& r is Ok ==> final(store)@ == old(store)@.insert(key, settled(pre).pay_request)
                    && *final(escrow) == settled(pre).escrow && *final(payer) == settled(pre).payer
                &&& r is Err ==> final(store)@ == old(store)@ && *final(escrow) == *old(escrow) && *final(payer) == *old(payer)
            }
        }),
{
    let key = request_address(owner, request_id);
    let ghost before = store@;
    let req = match store.remove(&key) {
        Some(req) => req,
        None => return Err(PaymentRequestError::RequestNotFound),
    };
    let mut ctx = SettlePayment { pay_request: req, escrow: *escrow, payer: *payer };
    let r = settle_payment(&mut ctx);
    store.insert_new(key, ctx.pay_request);
    *escrow = ctx.escrow;
    *payer = ctx.payer;
    assert(r is Err ==> store@ =~= before);
    assert(r is Ok ==> store@ =~= before.insert(key@, ctx.pay_request));
    r
}

/// Sweeps the stored request of `(owner, request_id)` from `escrow` to
/// `receiver`; on success the request is closed and leaves the store.
/// Refused with `RequestNotFound` where none is stored. Nothing changes on
/// failure.
pub fn sweep_stored_funds(
    store: &mut RequestStore<PayRequest>,
    owner: &Address,
    request_id: u64,
    escrow: &mut Account,
    receiver: &mut Account,
) -> (r: Result<(), PaymentRequestError>)
    requires
        old(store).wf(),
    ensures
        final(store).wf(),
        ({
            let key = derived_address(pay_request_tag(), owner@, request_id);
            if !old(store)@.contains_key(key) {
                r == Err::<(), PaymentRequestError>(PaymentRequestError::RequestNotFound)
                    && final(store)@ == old(store)@ && *final(escrow) == *old(escrow) && *final(receiver) == *old(receiver)
            } else {
                let pre = SweepFunds { pay_request: old(store)@[key], escrow: *old(escrow), receiver: *old(receiver) };
                &&& r == sweep_outcome(pre)
                &&& r is Ok ==> final(store)@ == old(store)@.remove(key)
                    && *final(escrow) == swept(pre).escrow && *final(receiver) == swept(pre).receiver
                &&& r is Err ==> final(store)@ == old(store)@ && *final(escrow) == *old(escrow) && *final(receiver) == *old(receiver)
            }
        }),
{
    let key = request_address(owner, request_id);
    let ghost before = store@;
    let req = match store.remove(&key) {
        Some(req) => req,
        None => return Err(PaymentRequestError::RequestNotFound),
    };
    let mut ctx = SweepFunds { pay_request: req, escrow: *escrow, receiver: *receiver };
    let r = sweep_funds(&mut ctx);
    match r {
        Ok(()) => {},
        Err(e) => {
            store.insert_new(key, ctx.pay_request);
            assert(store@ =~= before);
            return Err(e);
        },
    }
    *escrow = ctx.escrow;
    *receiver = ctx.receiver;
    Ok(())
}

/// Sweeping before settling fails: a freshly created request, swept by its
/// owner, is refused with `NotSettled`.
pub proof fn lemma_sweep_before_settle(owner: Address, request_id: u64, amount: u64, ctx: SweepFunds)
    requires
        ctx.pay_request == new_request(owner, request_id, amount),
        ctx.receiver.address@ == owner@,
    ensures
        sweep_outcome(ctx) == Err::<(), PaymentRequestError>(PaymentRequestError::NotSettled),
{
}

/// Settling twice fails: once a settlement has succeeded, any further
/// settlement of the resulting request is refused with `AlreadySettled`.
pub proof fn lemma_settle_after_settle(first: SettlePayment, second: SettlePayment)
    requires
        settle_outcome(first) is Ok,
        second.pay_request == settled(first).pay_request,
    ensures
        settle_outcome(second) == Err::<(), PaymentRequestError>(PaymentRequestError::AlreadySettled),
{
}

/// Sweeping twice fails: once a sweep has succeeded, a further sweep of the
/// resulting request by its owner is refused with `AlreadySwept`.
pub proof fn lemma_sweep_after_sweep(first: SweepFunds, second: SweepFunds)
    requires
        sweep_outcome(first) is Ok,
        second.pay_request == swept(first).pay_request,
        second.receiver.address@ == second.pay_request.receiver@,
    ensures
        sweep_outcome(second) == Err::<(), PaymentRequestError>(PaymentRequestError::AlreadySwept),
{
}

/// Only the owner sweeps: a sweep by any other identity is refused with
/// `UnauthorizedReceiver`, whatever state the request is in.
pub proof fn lemma_sweep_by_other_refused(ctx: SweepFunds)
    requires
        ctx.receiver.address@ != ctx.pay_request.receiver@,
    ensures
        sweep_outcome(ctx) == Err::<(), PaymentRequestError>(PaymentRequestError::UnauthorizedReceiver),
{
}

/// Funds are conserved. A settlement into an empty escrow leaves exactly the
/// amount there and moves no other value; the sweep that follows on that
/// escrow empties it and raises the payee's balance by exactly that amount.
pub proof fn lemma_fund_conservation(s: SettlePayment, w: SweepFunds)
    requires
        settle_outcome(s) is Ok,
        s.escrow.lamports == 0,
        w.pay_request == settled(s).pay_request,
        w.escrow == settled(s).escrow,
        sweep_outcome(w) is Ok,
    ensures
        settled(s).escrow.lamports == s.pay_request.amount,
        settled(s).payer.lamports + settled(s).escrow.lamports == s.payer.lamports + s.escrow.lamports,
        swept(w).escrow.lamports == 0,
        swept(w).receiver.lamports == w.receiver.lamports + s.pay_request.amount,
        swept(w).pay_request.is_swept,
{
}

/// Settlement is owed: an open request, settled from a payer who holds its
/// amount into its own empty escrow, succeeds; the escrow then holds exactly
/// the amount.
pub proof fn lemma_settle_fills_escrow(s: SettlePayment)
    requires
        !s.pay_request.is_settled,
        !s.pay_request.is_swept,
        s.escrow.address@ == escrow_of(s.pay_request),
        s.escrow.lamports == 0,
        s.payer.lamports >= s.pay_request.amount,
    ensures
        settle_outcome(s) is Ok,
        settled(s).escrow.lamports == s.pay_request.amount,
        settled(s).payer.lamports == s.payer.lamports - s.pay_request.amount,
        settled(s).pay_request.is_settled,
{
}

/// Sweeping is owed: a settled, unswept request, swept by its owner from its
/// own escrow holding exactly the amount, succeeds where the receiver's
/// balance can take the amount; the escrow ends empty and the receiver gains
/// exactly the amount. The storage deposit of the closed entity is the
/// host's and is not counted.
pub proof fn lemma_sweep_empties_escrow(w: SweepFunds)
    requires
        w.receiver.address@ == w.pay_request.receiver@,
        w.pay_request.is_settled,
        !w.pay_request.is_swept,
        w.escrow.address@ == escrow_of(w.pay_request),
        w.escrow.lamports == w.pay_request.amount,
        w.receiver.lamports + w.pay_request.amount <= u64::MAX,
    ensures
        sweep_outcome(w) is Ok,
        swept(w).escrow.lamports == 0,
        swept(w).receiver.lamports == w.receiver.lamports + w.pay_request.amount,
        swept(w).pay_request.is_swept,
{
}

/// Both transitions keep a well-formed request well-formed.
pub proof fn lemma_transitions_preserve_wf(s: SettlePayment, w: SweepFunds)
    requires
        s.pay_request.wf(),
        w.pay_request.wf(),
    ensures
        settle_outcome(s) is Ok ==> settled(s).pay_request.wf(),
        sweep_outcome(w) is Ok ==> swept(w).pay_request.wf(),
{
}

} // verus!
