//! Accounts holding funds, transfers between them, and the authority under
//! which the protocol releases an escrow it holds no private key for.

use vstd::prelude::*;
use crate::address::{Address, derive_address, derived_address, same_address};

verus! {

/// An account: its address and its balance.
#[derive(Debug, Clone, Copy)]
pub struct Account {
    pub address: Address,
    pub lamports: u64,
}

/// Why a transfer could not take place.
#[derive(Debug, Clone, Copy, PartialEq, Eq, Structural)]
pub enum TransferError {
    /// The source holds less than the amount.
    InsufficientFunds,
    /// The destination's balance would exceed `u64::MAX`.
    BalanceOverflow,
}

/// The outcome of moving `amount` from `from` to `to`.
pub open spec fn transfer_outcome(from: Account, to: Account, amount: u64) -> Result<(), TransferError> {
    if from.lamports < amount {
        Err(TransferError::InsufficientFunds)
    } else if to.lamports + amount > u64::MAX {
        Err(TransferError::BalanceOverflow)
    } else {
        Ok(())
    }
}

/// `a` with `amount` removed from its balance.
pub open spec fn debited(a: Account, amount: u64) -> Account {
    Account { lamports: (a.lamports - amount) as u64, ..a }
}

/// `a` with `amount` added to its balance.
pub open spec fn credited(a: Account, amount: u64) -> Account {
    Account { lamports: (a.lamports + amount) as u64, ..a }
}

/// Moves `amount` from `from` to `to`; on failure neither account changes.
pub fn transfer(from: &mut Account, to: &mut Account, amount: u64) -> (r: Result<(), TransferError>)
    ensures
        r == transfer_outcome(*old(from), *old(to), amount),
        r is Ok ==> *final(from) == debited(*old(from), amount) && *final(to) == credited(*old(to), amount),
        r is Err ==> *final(from) == *old(from) && *final(to) == *old(to),
{
    if from.lamports < amount {
        return Err(TransferError::InsufficientFunds);
    }
    if to.lamports > u64::MAX - amount {
        return Err(TransferError::BalanceOverflow);
    }
    from.lamports = from.lamports - amount;
    to.lamports = to.lamports + amount;
    Ok(())
}

/// The capability to debit one escrow account, recomputed from the same seed
/// as the escrow's address. Only this crate can construct one.
pub struct EscrowAuthority {
    address: Address,
}

impl EscrowAuthority {
    /// The address of the escrow this authority may debit.
    pub closed spec fn signs_for(&self) -> Seq<u8> {
        self.address@
    }

    /// The authority over the escrow derived from `(namespace, owner, request_id)`.
    pub(crate) fn from_seed(namespace: &[u8], owner: &Address, request_id: u64) -> (r: Self)
        ensures
            r.signs_for() == derived_address(namespace@, owner@, request_id),
    {
        EscrowAuthority { address: derive_address(namespace, owner, request_id) }
    }

    /// Whether this authority may debit `escrow`.
    pub(crate) fn controls(&self, escrow: &Account) -> (r: bool)
        ensures
            r == (self.signs_for() == escrow.address@),
    {
        same_address(&self.address, &escrow.address)
    }

    /// Moves `amount` out of `escrow` into `to`, signed by this authority.
    pub(crate) fn release(&self, escrow: &mut Account, to: &mut Account, amount: u64) -> (r: Result<(), TransferError>)
        requires
            self.signs_for() == old(escrow).address@,
        ensures
            r == transfer_outcome(*old(escrow), *old(to), amount),
            r is Ok ==> *final(escrow) == debited(*old(escrow), amount) && *final(to) == credited(*old(to), amount),
            r is Err ==> *final(escrow) == *old(escrow) && *final(to) == *old(to),
    {
        transfer(escrow, to, amount)
    }
}

} // verus!
