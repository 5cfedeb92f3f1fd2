//! Vault initialization: binding a holding account to program-only control.
use vstd::prelude::*;
use crate::address::Address;
use crate::ledger::set_authority;
use crate::pda::{created_address_of, derives, find_address, found_address_of, is_derived, seeds_view};
use crate::state::{
    native_vault_seed, native_vault_seed_bytes, token_seed, token_seed_bytes, token_vault_seed,
    token_vault_seed_bytes, vault_seed, vault_seed_bytes, NativeTokenVault, SignerInfo,
    TokenAccount, TokenVault, UnlockTokensError,
};

verus! {

/// Seeds of the address that holds the spending authority of asset vaults.
pub open spec fn authority_seeds() -> Seq<Seq<u8>> {
    seq![vault_seed()]
}

/// Seeds of the holding account of an asset type.
pub open spec fn vault_account_seeds(mint: Seq<u8>) -> Seq<Seq<u8>> {
    seq![token_seed(), mint]
}

/// Seeds of the vault record of an administrator and an asset type.
pub open spec fn token_vault_seeds(initializer: Seq<u8>, mint: Seq<u8>) -> Seq<Seq<u8>> {
    seq![token_vault_seed(), initializer, mint]
}

/// Seeds of the native vault of an administrator.
pub open spec fn native_vault_seeds(owner: Seq<u8>) -> Seq<Seq<u8>> {
    seq![native_vault_seed(), owner]
}

/// The spending authority of asset vaults under a program, with its bump seed.
pub open spec fn vault_authority(program_id: Seq<u8>) -> (Seq<u8>, u8) {
    found_address_of(authority_seeds(), program_id).unwrap()
}

/// The accounts of asset vault initialization. An account that does not
/// exist yet is `None`.
#[derive(Clone, Copy, Debug, PartialEq, Eq)]
pub struct InitializeVault {
    pub program_id: Address,
    pub initializer: SignerInfo,
    pub mint: Address,
    pub vault_account_key: Address,
    pub vault_account: Option<TokenAccount>,
    pub token_vault_key: Address,
    pub token_vault: Option<TokenVault>,
}

/// Why asset vault initialization is refused, if it is.
pub open spec fn initialize_vault_error(c: InitializeVault) -> Option<UnlockTokensError> {
    if !c.initializer.is_signer {
        Some(UnlockTokensError::UnauthorizedCaller)
    } else if c.vault_account is Some || c.token_vault is Some {
        Some(UnlockTokensError::AlreadyBound)
    } else if !derives(vault_account_seeds(c.mint@), c.program_id@, c.vault_account_key@)
        || !derives(token_vault_seeds(c.initializer.key@, c.mint@), c.program_id@, c.token_vault_key@) {
        Some(UnlockTokensError::LinkageMismatch)
    } else if found_address_of(authority_seeds(), c.program_id@) is None {
        Some(UnlockTokensError::AddressUnavailable)
    } else {
        None
    }
}

/// Asset vault initialization: the holding account is created for the asset
/// type with the program-derived authority as its only spender, and the vault
/// records the administrator, the holding account and the bump seed, from
/// which the same authority is derived again when funds are released.
pub open spec fn initialize_vault_effect(pre: InitializeVault, post: InitializeVault) -> bool {
    let auth = vault_authority(pre.program_id@);
    &&& created_address_of(authority_seeds().push(seq![auth.1]), pre.program_id@) == Some(auth.0)
    &&& post.vault_account matches Some(a) && a.mint == pre.mint && a.owner@ == auth.0 && a.amount
        == 0
    &&& post.token_vault == Some(
        TokenVault { owner: pre.initializer.key, token_account: pre.vault_account_key, bump: auth.1 },
    )
    &&& post == (InitializeVault { vault_account: post.vault_account, token_vault: post.token_vault, ..pre })
}

/// Creates an asset vault: a holding account whose spending authority is
/// handed from the initializer to a program-derived address.
pub fn initialize_vault(ctx: &mut InitializeVault) -> (r: Result<(), UnlockTokensError>)
    ensures
        r is Ok <==> initialize_vault_error(*old(ctx)) is None,
        r matches Err(e) ==> initialize_vault_error(*old(ctx)) == Some(e) && *final(ctx) == *old(
            ctx,
        ),
        r is Ok ==> initialize_vault_effect(*old(ctx), *final(ctx)),
{
    if !ctx.initializer.is_signer {
        return Err(UnlockTokensError::UnauthorizedCaller);
    }
    if ctx.vault_account.is_some() || ctx.token_vault.is_some() {
        return Err(UnlockTokensError::AlreadyBound);
    }
    let account_seeds = vec![token_seed_bytes(), ctx.mint.to_seed()];
    assert(seeds_view(&account_seeds) =~= vault_account_seeds(ctx.mint@));
    let record_seeds = vec![token_vault_seed_bytes(), ctx.initializer.key.to_seed(), ctx.mint.to_seed()];
    assert(seeds_view(&record_seeds) =~= token_vault_seeds(ctx.initializer.key@, ctx.mint@));
    if !is_derived(&account_seeds, &ctx.program_id, &ctx.vault_account_key) || !is_derived(
        &record_seeds,
        &ctx.program_id,
        &ctx.token_vault_key,
    ) {
        return Err(UnlockTokensError::LinkageMismatch);
    }
    let auth_seeds = vec![vault_seed_bytes()];
    assert(seeds_view(&auth_seeds) =~= authority_seeds());
    let (authority, bump) = match find_address(&auth_seeds, &ctx.program_id) {
        Some(p) => p,
        None => {
            return Err(UnlockTokensError::AddressUnavailable);
        },
    };
    let mut account = TokenAccount { mint: ctx.mint, owner: ctx.initializer.key, amount: 0 };
    if let Err(e) = set_authority(&mut account, &ctx.initializer, &authority) {
        return Err(e);
    }
    ctx.vault_account = Some(account);
    ctx.token_vault = Some(
        TokenVault { owner: ctx.initializer.key, token_account: ctx.vault_account_key, bump },
    );
    Ok(())
}

/// The accounts of native vault initialization.
#[derive(Clone, Copy, Debug, PartialEq, Eq)]
pub struct InitializeNativeVault {
    pub program_id: Address,
    pub initializer: SignerInfo,
    pub token_vault_key: Address,
    pub token_vault: Option<NativeTokenVault>,
}

/// Why native vault initialization is refused, if it is.
pub open spec fn initialize_native_vault_error(c: InitializeNativeVault) -> Option<
    UnlockTokensError,
> {
    if !c.initializer.is_signer {
        Some(UnlockTokensError::UnauthorizedCaller)
    } else if c.token_vault is Some {
        Some(UnlockTokensError::AlreadyBound)
    } else if !derives(native_vault_seeds(c.initializer.key@), c.program_id@, c.token_vault_key@) {
        Some(UnlockTokensError::LinkageMismatch)
    } else {
        None
    }
}

/// Native vault initialization records the administrator in the vault, which
/// is itself the holding account.
pub open spec fn initialize_native_vault_effect(
    pre: InitializeNativeVault,
    post: InitializeNativeVault,
) -> bool {
    post == (InitializeNativeVault {
        token_vault: Some(NativeTokenVault { owner: pre.initializer.key }),
        ..pre
    })
}

/// Creates a native vault at the program-derived address of its administrator.
pub fn initialize_native_vault(ctx: &mut InitializeNativeVault) -> (r: Result<(), UnlockTokensError>)
    ensures
        r is Ok <==> initialize_native_vault_error(*old(ctx)) is None,
        r matches Err(e) ==> initialize_native_vault_error(*old(ctx)) == Some(e) && *final(ctx)
            == *old(ctx),
        r is Ok ==> initialize_native_vault_effect(*old(ctx), *final(ctx)),
{
    if !ctx.initializer.is_signer {
        return Err(UnlockTokensError::UnauthorizedCaller);
    }
    if ctx.token_vault.is_some() {
        return Err(UnlockTokensError::AlreadyBound);
    }
    let seeds = vec![native_vault_seed_bytes(), ctx.initializer.key.to_seed()];
    assert(seeds_view(&seeds) =~= native_vault_seeds(ctx.initializer.key@));
    if !is_derived(&seeds, &ctx.program_id, &ctx.token_vault_key) {
        return Err(UnlockTokensError::LinkageMismatch);
    }
    ctx.token_vault = Some(NativeTokenVault { owner: ctx.initializer.key });
    Ok(())
}

} // verus!
