//! The host ledger's primitives as this program uses them: moving an asset
//! balance, reassigning an asset account's spending authority, and moving a
//! native balance. Each either completes or changes nothing.
use vstd::prelude::*;
use crate::address::Address;
use crate::state::{SignerInfo, TokenAccount, UnlockTokensError};

verus! {

/// Why moving `amount` from `from` to `to` under `authority` is refused, if it is.
pub open spec fn token_transfer_error(
    from: TokenAccount,
    to: TokenAccount,
    amount: u64,
    authority: Seq<u8>,
) -> Option<UnlockTokensError> {
    if authority != from.owner@ {
        Some(UnlockTokensError::UnauthorizedCaller)
    } else if from.mint@ != to.mint@ {
        Some(UnlockTokensError::LinkageMismatch)
    } else if from.amount < amount {
        Some(UnlockTokensError::InsufficientFunds)
    } else if to.amount + amount > u64::MAX {
        Some(UnlockTokensError::BalanceOverflow)
    } else {
        None
    }
}

pub open spec fn debited(a: TokenAccount, amount: u64) -> TokenAccount {
    TokenAccount { amount: (a.amount - amount) as u64, ..a }
}

pub open spec fn credited(a: TokenAccount, amount: u64) -> TokenAccount {
    TokenAccount { amount: (a.amount + amount) as u64, ..a }
}

/// Moves exactly `amount` of an asset from `from` to `to`, spent by
/// `authority`, which must be the spending authority of `from`.
pub fn token_transfer(
    from: &mut TokenAccount,
    to: &mut TokenAccount,
    amount: u64,
    authority: &Address,
) -> (r: Result<(), UnlockTokensError>)
    ensures
        r is Ok <==> token_transfer_error(*old(from), *old(to), amount, authority@) is None,
        r matches Err(e) ==> token_transfer_error(*old(from), *old(to), amount, authority@)
            == Some(e) && *final(from) == *old(from) && *final(to) == *old(to),
        r is Ok ==> *final(from) == debited(*old(from), amount) && *final(to) == credited(
            *old(to),
            amount,
        ),
{
    if !authority.same(&from.owner) {
        return Err(UnlockTokensError::UnauthorizedCaller);
    }
    if !from.mint.same(&to.mint) {
        return Err(UnlockTokensError::LinkageMismatch);
    }
    if from.amount < amount {
        return Err(UnlockTokensError::InsufficientFunds);
    }
    if to.amount > u64::MAX - amount {
        return Err(UnlockTokensError::BalanceOverflow);
    }
    from.amount = from.amount - amount;
    to.amount = to.amount + amount;
    Ok(())
}

/// Why reassigning the spending authority of `account` by `current` is refused, if it is.
pub open spec fn set_authority_error(account: TokenAccount, current: SignerInfo) -> Option<
    UnlockTokensError,
> {
    if !current.is_signer || current.key@ != account.owner@ {
        Some(UnlockTokensError::UnauthorizedCaller)
    } else {
        None
    }
}

/// Gives the spending authority of `account` to `new_authority`; only its
/// current authority, signing, may do so.
pub fn set_authority(
    account: &mut TokenAccount,
    current: &SignerInfo,
    new_authority: &Address,
) -> (r: Result<(), UnlockTokensError>)
    ensures
        r is Ok <==> set_authority_error(*old(account), *current) is None,
        r matches Err(e) ==> set_authority_error(*old(account), *current) == Some(e)
            && *final(account) == *old(account),
        r is Ok ==> *final(account) == (TokenAccount { owner: *new_authority, ..*old(account) }),
{
    if !current.is_signer || !current.key.same(&account.owner) {
        return Err(UnlockTokensError::UnauthorizedCaller);
    }
    account.owner = *new_authority;
    Ok(())
}

/// Why moving `amount` native units between two balances is refused, if it is.
pub open spec fn lamport_transfer_error(from: u64, to: u64, amount: u64) -> Option<
    UnlockTokensError,
> {
    if from < amount {
        Some(UnlockTokensError::InsufficientFunds)
    } else if to + amount > u64::MAX {
        Some(UnlockTokensError::BalanceOverflow)
    } else {
        None
    }
}

/// Debits `from` and credits `to` by exactly `amount` native units.
pub fn lamport_transfer(from: &mut u64, to: &mut u64, amount: u64) -> (r: Result<(), UnlockTokensError>)
    ensures
        r is Ok <==> lamport_transfer_error(*old(from), *old(to), amount) is None,
        r matches Err(e) ==> lamport_transfer_error(*old(from), *old(to), amount) == Some(e)
            && *final(from) == *old(from) && *final(to) == *old(to),
        r is Ok ==> *final(from) == *old(from) - amount && *final(to) == *old(to) + amount,
{
    if *from < amount {
        return Err(UnlockTokensError::InsufficientFunds);
    }
    if *to > u64::MAX - amount {
        return Err(UnlockTokensError::BalanceOverflow);
    }
    *from = *from - amount;
    *to = *to + amount;
    Ok(())
}

} // verus!
