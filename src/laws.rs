//! Properties of the vault program that span its instructions.
use vstd::prelude::*;
use crate::address::Address;
use crate::ledger::token_transfer_error;
use crate::lockup::{
    lockup_native_token_effect, lockup_native_token_error, lockup_token_effect, lockup_token_error,
    LockupNativeToken, LockupToken,
};
use crate::release::{
    signing_authority, unlock_native_tokens_effect, unlock_native_tokens_error,
    unlock_tokens_effect, unlock_tokens_error, UnlockNativeTokens, UnlockTokens,
};
use crate::state::{TokenAccount, UnlockTokensError};
use crate::vault::{initialize_vault_effect, initialize_vault_error, vault_authority, InitializeVault};

verus! {

/// A successful asset lockup takes exactly the amount from the depositor and
/// adds exactly the amount to the holding account; their total is unchanged.
pub proof fn lockup_token_conserves(pre: LockupToken, post: LockupToken, amount: u64, unlock_timestamp: i64)
    requires
        lockup_token_error(pre, amount) is None,
        lockup_token_effect(pre, post, amount, unlock_timestamp),
    ensures
        post.payer_deposit_token_account.amount == pre.payer_deposit_token_account.amount - amount,
        post.vault_account.amount == pre.vault_account.amount + amount,
        post.payer_deposit_token_account.amount + post.vault_account.amount
            == pre.payer_deposit_token_account.amount + pre.vault_account.amount,
{
}

/// A successful native lockup takes exactly the amount from the payer and adds
/// exactly the amount to the vault; their total is unchanged.
pub proof fn lockup_native_token_conserves(
    pre: LockupNativeToken,
    post: LockupNativeToken,
    amount: u64,
    unlock_timestamp: i64,
)
    requires
        lockup_native_token_error(pre, amount) is None,
        lockup_native_token_effect(pre, post, amount, unlock_timestamp),
    ensures
        post.payer_lamports == pre.payer_lamports - amount,
        post.token_vault_lamports == pre.token_vault_lamports + amount,
        post.payer_lamports + post.token_vault_lamports == pre.payer_lamports
            + pre.token_vault_lamports,
{
}

/// A successful asset release takes exactly the recorded amount from the
/// holding account and adds it to the receiver; their total is unchanged.
pub proof fn unlock_tokens_conserves(pre: UnlockTokens, post: UnlockTokens, now: i64)
    requires
        unlock_tokens_error(pre, now) is None,
        unlock_tokens_effect(pre, post),
    ensures
        pre.token_lockup is Some,
        post.vault_account.amount == pre.vault_account.amount - pre.token_lockup.unwrap().amount,
        post.receiver.amount == pre.receiver.amount + pre.token_lockup.unwrap().amount,
        post.vault_account.amount + post.receiver.amount == pre.vault_account.amount
            + pre.receiver.amount,
{
}

/// A successful native release takes exactly the recorded amount from the
/// vault and adds it to the receiver; their total is unchanged.
pub proof fn unlock_native_tokens_conserves(pre: UnlockNativeTokens, post: UnlockNativeTokens, now: i64)
    requires
        unlock_native_tokens_error(pre, now) is None,
        unlock_native_tokens_effect(pre, post),
    ensures
        pre.token_lockup is Some,
        post.token_vault_lamports == pre.token_vault_lamports - pre.token_lockup.unwrap().amount,
        post.receiver_lamports == pre.receiver_lamports + pre.token_lockup.unwrap().amount,
        post.token_vault_lamports + post.receiver_lamports == pre.token_vault_lamports
            + pre.receiver_lamports,
{
}

/// Before its unlock time, an asset release of any lockup is refused as
/// incomplete, whoever calls and whatever accounts are supplied.
pub proof fn unlock_tokens_not_early(c: UnlockTokens, now: i64)
    requires
        c.token_lockup matches Some(l) && now < l.unlock_timestamp,
    ensures
        unlock_tokens_error(c, now) == Some(UnlockTokensError::LockupIncomplete),
{
}

/// Before its unlock time, a native release of any lockup is refused as
/// incomplete, whoever calls and whatever accounts are supplied.
pub proof fn unlock_native_tokens_not_early(c: UnlockNativeTokens, now: i64)
    requires
        c.token_lockup matches Some(l) && now < l.unlock_timestamp,
    ensures
        unlock_native_tokens_error(c, now) == Some(UnlockTokensError::LockupIncomplete),
{
}

/// After an asset release succeeds, releasing the same record again is refused
/// at any time, and a refused release changes nothing.
pub proof fn unlock_tokens_once(pre: UnlockTokens, post: UnlockTokens, now: i64, later: i64)
    requires
        unlock_tokens_error(pre, now) is None,
        unlock_tokens_effect(pre, post),
    ensures
        unlock_tokens_error(post, later) == Some(UnlockTokensError::LinkageMismatch),
{
}

/// After a native release succeeds, releasing the same record again is
/// refused at any time.
pub proof fn unlock_native_tokens_once(
    pre: UnlockNativeTokens,
    post: UnlockNativeTokens,
    now: i64,
    later: i64,
)
    requires
        unlock_native_tokens_error(pre, now) is None,
        unlock_native_tokens_effect(pre, post),
    ensures
        unlock_native_tokens_error(post, later) == Some(UnlockTokensError::LinkageMismatch),
{
}

/// An asset release to any account other than the recorded receiver is
/// refused, at any time and whoever calls.
pub proof fn unlock_tokens_only_to_receiver(c: UnlockTokens, now: i64)
    requires
        c.token_lockup matches Some(l) && c.receiver_key@ != l.receiver@,
    ensures
        unlock_tokens_error(c, now) is Some,
        now >= c.token_lockup.unwrap().unlock_timestamp ==> unlock_tokens_error(c, now) == Some(
            UnlockTokensError::LinkageMismatch,
        ) || unlock_tokens_error(c, now) == Some(UnlockTokensError::UnauthorizedCaller),
{
}

/// A native release to any account other than the recorded receiver is
/// refused, at any time and whoever calls.
pub proof fn unlock_native_tokens_only_to_receiver(c: UnlockNativeTokens, now: i64)
    requires
        c.token_lockup matches Some(l) && c.receiver_key@ != l.receiver@,
    ensures
        unlock_native_tokens_error(c, now) is Some,
        now >= c.token_lockup.unwrap().unlock_timestamp ==> unlock_native_tokens_error(c, now)
            == Some(UnlockTokensError::LinkageMismatch) || unlock_native_tokens_error(c, now)
            == Some(UnlockTokensError::UnauthorizedCaller),
{
}

/// Once an asset vault is initialized, a transfer out of its holding account
/// under any authority other than the program-derived one is refused, and that
/// authority is exactly the one that releases derive from the vault's bump.
pub proof fn vault_spends_only_by_program(
    pre: InitializeVault,
    post: InitializeVault,
    authority: Address,
    to: TokenAccount,
    amount: u64,
)
    requires
        initialize_vault_error(pre) is None,
        initialize_vault_effect(pre, post),
    ensures
        post.vault_account matches Some(a) && a.owner@ == vault_authority(pre.program_id@).0,
        authority@ != vault_authority(pre.program_id@).0 ==> token_transfer_error(
            post.vault_account.unwrap(),
            to,
            amount,
            authority@,
        ) == Some(UnlockTokensError::UnauthorizedCaller),
        signing_authority(pre.program_id@, post.token_vault.unwrap().bump) == Some(
            post.vault_account.unwrap().owner@,
        ),
{
}

} // verus!
