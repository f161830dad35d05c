//! The value-transfer collaborator, modelled over plain balances.
//!
//! A token account carries one kind of fungible value; what the escrow reads
//! of it is its balance and the authority whose signature a transfer out of
//! it requires. `transfer` is the ledger's primitive: atomic, all-or-nothing,
//! and failing cleanly without touching either balance.

use vstd::prelude::*;
use crate::keys::Authority;
use crate::state::ErrorCode;

verus! {

/// A fungible-value account: its balance, and the authority that alone may
/// move value out of it.
#[derive(Clone, Copy, PartialEq, Eq, Structural, Debug)]
pub struct TokenAccount {
    pub authority: Authority,
    pub amount: u64,
}

/// When a transfer of `amount` from `from` to `to` succeeds: the authorizer
/// holds the source's authority, the source covers the amount, and the
/// destination balance still fits.
pub open spec fn transfer_ok(
    from: TokenAccount,
    to: TokenAccount,
    amount: u64,
    authorizer: Authority,
) -> bool {
    &&& authorizer == from.authority
    &&& from.amount >= amount
    &&& to.amount + amount <= u64::MAX
}

/// The error a refused transfer reports: a wrong authorizer is an
/// authorization failure; anything else the ledger reports as a failed
/// transfer.
pub open spec fn transfer_err(from: TokenAccount, authorizer: Authority) -> ErrorCode {
    if authorizer != from.authority {
        ErrorCode::AuthorityMismatch
    } else {
        ErrorCode::TransferFailed
    }
}

/// Moves `amount` from `from` to `to` if `authorizer` holds the source's
/// authority and both balances allow it; otherwise changes nothing. Value is
/// conserved: the two balances sum to what they summed to before.
pub fn transfer(
    from: &mut TokenAccount,
    to: &mut TokenAccount,
    amount: u64,
    authorizer: Authority,
) -> (r: Result<(), ErrorCode>)
    ensures
        r is Ok <==> transfer_ok(*old(from), *old(to), amount, authorizer),
        r is Ok ==> final(from).amount == old(from).amount - amount
            && final(to).amount == old(to).amount + amount,
        r matches Err(e) ==> e == transfer_err(*old(from), authorizer)
            && *final(from) == *old(from) && *final(to) == *old(to),
        final(from).authority == old(from).authority,
        final(to).authority == old(to).authority,
        final(from).amount + final(to).amount == old(from).amount + old(to).amount,
{
    if !(authorizer == from.authority) {
        return Err(ErrorCode::AuthorityMismatch);
    }
    if from.amount < amount {
        return Err(ErrorCode::TransferFailed);
    }
    if to.amount > u64::MAX - amount {
        return Err(ErrorCode::TransferFailed);
    }
    from.amount = from.amount - amount;
    to.amount = to.amount + amount;
    Ok(())
}

} // verus!
