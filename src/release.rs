//! Releasing lockups: once its unlock time is reached, a lockup's full amount
//! goes to its recorded receiver and the record is retired.
use vstd::prelude::*;
use crate::address::Address;
use crate::ledger::{
    credited, debited, lamport_transfer, lamport_transfer_error, token_transfer,
    token_transfer_error,
};
use crate::pda::{create_address, created_address_of, derives, is_derived, seeds_view};
use crate::state::{
    native_vault_seed_bytes, vault_seed_bytes, NativeTokenVault, SignerInfo, TokenAccount,
    TokenLockup, TokenVault, UnlockTokensError,
};
use crate::vault::{authority_seeds, native_vault_seeds};

verus! {

/// The address that signs for an asset vault with the given bump seed, if any.
pub open spec fn signing_authority(program_id: Seq<u8>, bump: u8) -> Option<Seq<u8>> {
    created_address_of(authority_seeds().push(seq![bump]), program_id)
}

/// The accounts of an asset release. A retired lockup record is `None`.
#[derive(Clone, Copy, Debug, PartialEq, Eq)]
pub struct UnlockTokens {
    pub program_id: Address,
    pub payer: SignerInfo,
    pub token_lockup_key: Address,
    pub token_lockup: Option<TokenLockup>,
    pub token_vault_key: Address,
    pub token_vault: TokenVault,
    pub vault_account_key: Address,
    pub vault_account: TokenAccount,
    pub receiver_key: Address,
    pub receiver: TokenAccount,
}

/// Why an asset release at time `now` is refused, if it is.
pub open spec fn unlock_tokens_error(c: UnlockTokens, now: i64) -> Option<UnlockTokensError> {
    match c.token_lockup {
        None => Some(UnlockTokensError::LinkageMismatch),
        Some(l) => if now < l.unlock_timestamp {
            Some(UnlockTokensError::LockupIncomplete)
        } else if !c.payer.is_signer {
            Some(UnlockTokensError::UnauthorizedCaller)
        } else if l.token_vault@ != c.token_vault_key@ || c.token_vault.token_account@
            != c.vault_account_key@ || c.receiver_key@ != l.receiver@ || c.receiver_key@
            == c.vault_account_key@ {
            Some(UnlockTokensError::LinkageMismatch)
        } else {
            match signing_authority(c.program_id@, c.token_vault.bump) {
                None => Some(UnlockTokensError::UnauthorizedCaller),
                Some(a) => token_transfer_error(c.vault_account, c.receiver, l.amount, a),
            }
        },
    }
}

/// An asset release moves the recorded amount from the holding account to the
/// receiver and retires the record.
pub open spec fn unlock_tokens_effect(pre: UnlockTokens, post: UnlockTokens) -> bool {
    let amount = pre.token_lockup.unwrap().amount;
    post == (UnlockTokens {
        vault_account: debited(pre.vault_account, amount),
        receiver: credited(pre.receiver, amount),
        token_lockup: None,
        ..pre
    })
}

/// Releases an asset lockup at time `now`, signing for the holding account
/// with the vault's program-derived address.
pub fn unlock_tokens(ctx: &mut UnlockTokens, now: i64) -> (r: Result<(), UnlockTokensError>)
    ensures
        r is Ok <==> unlock_tokens_error(*old(ctx), now) is None,
        r matches Err(e) ==> unlock_tokens_error(*old(ctx), now) == Some(e) && *final(ctx) == *old(
            ctx,
        ),
        r is Ok ==> unlock_tokens_effect(*old(ctx), *final(ctx)),
{
    let lockup = match ctx.token_lockup {
        None => {
            return Err(UnlockTokensError::LinkageMismatch);
        },
        Some(l) => l,
    };
    if now < lockup.unlock_timestamp {
        return Err(UnlockTokensError::LockupIncomplete);
    }
    if !ctx.payer.is_signer {
        return Err(UnlockTokensError::UnauthorizedCaller);
    }
    if !lockup.token_vault.same(&ctx.token_vault_key) || !ctx.token_vault.token_account.same(
        &ctx.vault_account_key,
    ) || !ctx.receiver_key.same(&lockup.receiver) || ctx.receiver_key.same(&ctx.vault_account_key) {
        return Err(UnlockTokensError::LinkageMismatch);
    }
    let seeds = vec![vault_seed_bytes()];
    assert(seeds_view(&seeds) =~= authority_seeds());
    let authority = match create_address(seeds, ctx.token_vault.bump, &ctx.program_id) {
        None => {
            return Err(UnlockTokensError::UnauthorizedCaller);
        },
        Some(a) => a,
    };
    token_transfer(&mut ctx.vault_account, &mut ctx.receiver, lockup.amount, &authority)?;
    ctx.token_lockup = None;
    Ok(())
}

/// The accounts of a native release, with the native balances of the vault
/// and of the receiver.
#[derive(Clone, Copy, Debug, PartialEq, Eq)]
pub struct UnlockNativeTokens {
    pub program_id: Address,
    pub payer: SignerInfo,
    pub token_lockup_key: Address,
    pub token_lockup: Option<TokenLockup>,
    pub token_vault_key: Address,
    pub token_vault: NativeTokenVault,
    pub token_vault_lamports: u64,
    pub receiver_key: Address,
    pub receiver_lamports: u64,
}

/// Why a native release at time `now` is refused, if it is.
pub open spec fn unlock_native_tokens_error(c: UnlockNativeTokens, now: i64) -> Option<
    UnlockTokensError,
> {
    match c.token_lockup {
        None => Some(UnlockTokensError::LinkageMismatch),
        Some(l) => if now < l.unlock_timestamp {
            Some(UnlockTokensError::LockupIncomplete)
        } else if !c.payer.is_signer {
            Some(UnlockTokensError::UnauthorizedCaller)
        } else if l.token_vault@ != c.token_vault_key@ || !derives(
            native_vault_seeds(c.token_vault.owner@),
            c.program_id@,
            c.token_vault_key@,
        ) || c.receiver_key@ != l.receiver@ || c.receiver_key@ == c.token_vault_key@ {
            Some(UnlockTokensError::LinkageMismatch)
        } else {
            lamport_transfer_error(c.token_vault_lamports, c.receiver_lamports, l.amount)
        },
    }
}

/// A native release debits the vault and credits the receiver by the recorded
/// amount and retires the record.
pub open spec fn unlock_native_tokens_effect(pre: UnlockNativeTokens, post: UnlockNativeTokens) -> bool {
    let amount = pre.token_lockup.unwrap().amount;
    post == (UnlockNativeTokens {
        token_vault_lamports: (pre.token_vault_lamports - amount) as u64,
        receiver_lamports: (pre.receiver_lamports + amount) as u64,
        token_lockup: None,
        ..pre
    })
}

/// Releases a native lockup at time `now`.
pub fn unlock_native_tokens(ctx: &mut UnlockNativeTokens, now: i64) -> (r: Result<
    (),
    UnlockTokensError,
>)
    ensures
        r is Ok <==> unlock_native_tokens_error(*old(ctx), now) is None,
        r matches Err(e) ==> unlock_native_tokens_error(*old(ctx), now) == Some(e) && *final(ctx)
            == *old(ctx),
        r is Ok ==> unlock_native_tokens_effect(*old(ctx), *final(ctx)),
{
    let lockup = match ctx.token_lockup {
        None => {
            return Err(UnlockTokensError::LinkageMismatch);
        },
        Some(l) => l,
    };
    if now < lockup.unlock_timestamp {
        return Err(UnlockTokensError::LockupIncomplete);
    }
    if !ctx.payer.is_signer {
        return Err(UnlockTokensError::UnauthorizedCaller);
    }
    let vault_seeds = vec![native_vault_seed_bytes(), ctx.token_vault.owner.to_seed()];
    assert(seeds_view(&vault_seeds) =~= native_vault_seeds(ctx.token_vault.owner@));
    if !lockup.token_vault.same(&ctx.token_vault_key) || !is_derived(
        &vault_seeds,
        &ctx.program_id,
        &ctx.token_vault_key,
    ) || !ctx.receiver_key.same(&lockup.receiver) || ctx.receiver_key.same(&ctx.token_vault_key) {
        return Err(UnlockTokensError::LinkageMismatch);
    }
    lamport_transfer(&mut ctx.token_vault_lamports, &mut ctx.receiver_lamports, lockup.amount)?;
    ctx.token_lockup = None;
    Ok(())
}

} // verus!
