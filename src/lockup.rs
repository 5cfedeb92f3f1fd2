//! Issuing lockups: a deposit moved into a vault's holding account together
//! with a record of its terms.
use vstd::prelude::*;
use crate::address::Address;
use crate::ledger::{
    credited, debited, lamport_transfer, lamport_transfer_error, token_transfer,
    token_transfer_error,
};
use crate::pda::{derives, is_derived, seeds_view};
use crate::state::{
    native_vault_seed_bytes, token_lockup_seed, token_lockup_seed_bytes, NativeTokenVault,
    SignerInfo, TokenAccount, TokenLockup, TokenVault, UnlockTokensError,
};
use crate::vault::native_vault_seeds;

verus! {

/// Seeds of the lockup record of a depositor in a vault.
pub open spec fn lockup_seeds(payer: Seq<u8>, vault: Seq<u8>) -> Seq<Seq<u8>> {
    seq![token_lockup_seed(), payer, vault]
}

pub fn lockup_seed_list(payer: &Address, vault: &Address) -> (r: Vec<Vec<u8>>)
    ensures
        seeds_view(&r) == lockup_seeds(payer@, vault@),
{
    let r = vec![token_lockup_seed_bytes(), payer.to_seed(), vault.to_seed()];
    assert(seeds_view(&r) =~= lockup_seeds(payer@, vault@));
    r
}

/// The accounts of an asset lockup.
#[derive(Clone, Copy, Debug, PartialEq, Eq)]
pub struct LockupToken {
    pub program_id: Address,
    pub payer: SignerInfo,
    pub token_vault_key: Address,
    pub token_vault: TokenVault,
    pub vault_account_key: Address,
    pub vault_account: TokenAccount,
    pub payer_deposit_token_account_key: Address,
    pub payer_deposit_token_account: TokenAccount,
    pub token_lockup_key: Address,
    pub token_lockup: Option<TokenLockup>,
}

/// Why an asset lockup of `amount` is refused, if it is.
pub open spec fn lockup_token_error(c: LockupToken, amount: u64) -> Option<UnlockTokensError> {
    if !c.payer.is_signer {
        Some(UnlockTokensError::UnauthorizedCaller)
    } else if c.token_vault.token_account@ != c.vault_account_key@
        || c.payer_deposit_token_account_key@ == c.vault_account_key@ {
        Some(UnlockTokensError::LinkageMismatch)
    } else if c.token_lockup is Some {
        Some(UnlockTokensError::AlreadyBound)
    } else if !derives(
        lockup_seeds(c.payer.key@, c.token_vault.token_account@),
        c.program_id@,
        c.token_lockup_key@,
    ) {
        Some(UnlockTokensError::LinkageMismatch)
    } else if c.payer_deposit_token_account.amount < amount {
        Some(UnlockTokensError::InsufficientFunds)
    } else {
        token_transfer_error(c.payer_deposit_token_account, c.vault_account, amount, c.payer.key@)
    }
}

/// An asset lockup moves exactly `amount` from the depositor's account to the
/// holding account and records the deposit, with the depositor's account as
/// receiver.
pub open spec fn lockup_token_effect(
    pre: LockupToken,
    post: LockupToken,
    amount: u64,
    unlock_timestamp: i64,
) -> bool {
    post == (LockupToken {
        payer_deposit_token_account: debited(pre.payer_deposit_token_account, amount),
        vault_account: credited(pre.vault_account, amount),
        token_lockup: Some(
            TokenLockup {
                amount,
                token_vault: pre.token_vault_key,
                unlock_timestamp,
                depositor: pre.payer_deposit_token_account_key,
                receiver: pre.payer_deposit_token_account_key,
            },
        ),
        ..pre
    })
}

/// Locks `amount` of an asset in a vault until `unlock_timestamp`.
pub fn lockup_token(ctx: &mut LockupToken, lockup_amount: u64, unlock_timestamp: i64) -> (r: Result<
    (),
    UnlockTokensError,
>)
    ensures
        r is Ok <==> lockup_token_error(*old(ctx), lockup_amount) is None,
        r matches Err(e) ==> lockup_token_error(*old(ctx), lockup_amount) == Some(e) && *final(ctx)
            == *old(ctx),
        r is Ok ==> lockup_token_effect(*old(ctx), *final(ctx), lockup_amount, unlock_timestamp),
{
    if !ctx.payer.is_signer {
        return Err(UnlockTokensError::UnauthorizedCaller);
    }
    if !ctx.token_vault.token_account.same(&ctx.vault_account_key)
        || ctx.payer_deposit_token_account_key.same(&ctx.vault_account_key) {
        return Err(UnlockTokensError::LinkageMismatch);
    }
    if ctx.token_lockup.is_some() {
        return Err(UnlockTokensError::AlreadyBound);
    }
    let seeds = lockup_seed_list(&ctx.payer.key, &ctx.token_vault.token_account);
    if !is_derived(&seeds, &ctx.program_id, &ctx.token_lockup_key) {
        return Err(UnlockTokensError::LinkageMismatch);
    }
    if ctx.payer_deposit_token_account.amount < lockup_amount {
        return Err(UnlockTokensError::InsufficientFunds);
    }
    let authority = ctx.payer.key;
    token_transfer(
        &mut ctx.payer_deposit_token_account,
        &mut ctx.vault_account,
        lockup_amount,
        &authority,
    )?;
    ctx.token_lockup = Some(
        TokenLockup {
            amount: lockup_amount,
            token_vault: ctx.token_vault_key,
            unlock_timestamp,
            depositor: ctx.payer_deposit_token_account_key,
            receiver: ctx.payer_deposit_token_account_key,
        },
    );
    Ok(())
}

/// The accounts of a native lockup, with the native balances of the payer
/// and of the vault.
#[derive(Clone, Copy, Debug, PartialEq, Eq)]
pub struct LockupNativeToken {
    pub program_id: Address,
    pub payer: SignerInfo,
    pub payer_lamports: u64,
    pub token_vault_key: Address,
    pub token_vault: NativeTokenVault,
    pub token_vault_lamports: u64,
    pub token_lockup_key: Address,
    pub token_lockup: Option<TokenLockup>,
}

/// Why a native lockup of `amount` is refused, if it is.
pub open spec fn lockup_native_token_error(c: LockupNativeToken, amount: u64) -> Option<
    UnlockTokensError,
> {
    if !c.payer.is_signer {
        Some(UnlockTokensError::UnauthorizedCaller)
    } else if !derives(native_vault_seeds(c.token_vault.owner@), c.program_id@, c.token_vault_key@)
        || c.payer.key@ == c.token_vault_key@ {
        Some(UnlockTokensError::LinkageMismatch)
    } else if c.token_lockup is Some {
        Some(UnlockTokensError::AlreadyBound)
    } else if !derives(lockup_seeds(c.payer.key@, c.token_vault_key@), c.program_id@, c.token_lockup_key@) {
        Some(UnlockTokensError::LinkageMismatch)
    } else {
        lamport_transfer_error(c.payer_lamports, c.token_vault_lamports, amount)
    }
}

/// A native lockup moves exactly `amount` from the payer to the vault and
/// records the deposit, with the payer as receiver.
pub open spec fn lockup_native_token_effect(
    pre: LockupNativeToken,
    post: LockupNativeToken,
    amount: u64,
    unlock_timestamp: i64,
) -> bool {
    post == (LockupNativeToken {
        payer_lamports: (pre.payer_lamports - amount) as u64,
        token_vault_lamports: (pre.token_vault_lamports + amount) as u64,
        token_lockup: Some(
            TokenLockup {
                amount,
                token_vault: pre.token_vault_key,
                unlock_timestamp,
                depositor: pre.payer.key,
                receiver: pre.payer.key,
            },
        ),
        ..pre
    })
}

/// Locks `amount` native units in a native vault until `unlock_timestamp`.
pub fn lockup_native_token(
    ctx: &mut LockupNativeToken,
    lockup_amount: u64,
    unlock_timestamp: i64,
) -> (r: Result<(), UnlockTokensError>)
    ensures
        r is Ok <==> lockup_native_token_error(*old(ctx), lockup_amount) is None,
        r matches Err(e) ==> lockup_native_token_error(*old(ctx), lockup_amount) == Some(e)
            && *final(ctx) == *old(ctx),
        r is Ok ==> lockup_native_token_effect(
            *old(ctx),
            *final(ctx),
            lockup_amount,
            unlock_timestamp,
        ),
{
    if !ctx.payer.is_signer {
        return Err(UnlockTokensError::UnauthorizedCaller);
    }
    let vault_seeds = vec![native_vault_seed_bytes(), ctx.token_vault.owner.to_seed()];
    assert(seeds_view(&vault_seeds) =~= native_vault_seeds(ctx.token_vault.owner@));
    if !is_derived(&vault_seeds, &ctx.program_id, &ctx.token_vault_key) || ctx.payer.key.same(
        &ctx.token_vault_key,
    ) {
        return Err(UnlockTokensError::LinkageMismatch);
    }
    if ctx.token_lockup.is_some() {
        return Err(UnlockTokensError::AlreadyBound);
    }
    let seeds = lockup_seed_list(&ctx.payer.key, &ctx.token_vault_key);
    if !is_derived(&seeds, &ctx.program_id, &ctx.token_lockup_key) {
        return Err(UnlockTokensError::LinkageMismatch);
    }
    lamport_transfer(&mut ctx.payer_lamports, &mut ctx.token_vault_lamports, lockup_amount)?;
    ctx.token_lockup = Some(
        TokenLockup {
            amount: lockup_amount,
            token_vault: ctx.token_vault_key,
            unlock_timestamp,
            depositor: ctx.payer.key,
            receiver: ctx.payer.key,
        },
    );
    Ok(())
}

} // verus!
