use anchor_lang::prelude::Pubkey;
use solana_hodl::address::Address;
use solana_hodl::ledger::{lamport_transfer, set_authority, token_transfer};
use solana_hodl::lockup::{lockup_native_token, lockup_token, LockupNativeToken, LockupToken};
use solana_hodl::pda::{create_address, find_address, is_derived};
use solana_hodl::release::{unlock_native_tokens, unlock_tokens, UnlockNativeTokens, UnlockTokens};
use solana_hodl::state::{
    NativeTokenVault, SignerInfo, TokenAccount, TokenLockup, TokenVault, UnlockTokensError,
};
use solana_hodl::vault::{
    initialize_native_vault, initialize_vault, InitializeNativeVault, InitializeVault,
};

const T: i64 = 1_700_000_000;

fn key(n: u8) -> Address {
    Address::new([n; 32])
}

fn program() -> Address {
    key(200)
}

fn pda(seeds: &[&[u8]]) -> (Address, u8) {
    let (k, b) = Pubkey::find_program_address(seeds, &Pubkey::new_from_array(program().bytes));
    (Address::new(k.to_bytes()), b)
}

fn signer(k: Address) -> SignerInfo {
    SignerInfo { key: k, is_signer: true }
}

fn alice() -> Address {
    key(1)
}
fn bob() -> Address {
    key(2)
}
fn carol() -> Address {
    key(3)
}
fn dave() -> Address {
    key(4)
}
fn mint() -> Address {
    key(9)
}
fn bob_tokens() -> Address {
    key(12)
}
fn carol_tokens() -> Address {
    key(13)
}

fn init_ctx(initializer: Address) -> InitializeVault {
    InitializeVault {
        program_id: program(),
        initializer: signer(initializer),
        mint: mint(),
        vault_account_key: pda(&[b"token-seed", &mint().bytes]).0,
        vault_account: None,
        token_vault_key: pda(&[b"token-vault", &initializer.bytes, &mint().bytes]).0,
        token_vault: None,
    }
}

fn initialized() -> InitializeVault {
    let mut ctx = init_ctx(alice());
    assert_eq!(initialize_vault(&mut ctx), Ok(()));
    ctx
}

fn lockup_ctx(v: &InitializeVault, balance: u64) -> LockupToken {
    LockupToken {
        program_id: program(),
        payer: signer(bob()),
        token_vault_key: v.token_vault_key,
        token_vault: v.token_vault.unwrap(),
        vault_account_key: v.vault_account_key,
        vault_account: v.vault_account.unwrap(),
        payer_deposit_token_account_key: bob_tokens(),
        payer_deposit_token_account: TokenAccount { mint: mint(), owner: bob(), amount: balance },
        token_lockup_key: pda(&[b"token-lockup", &bob().bytes, &v.vault_account_key.bytes]).0,
        token_lockup: None,
    }
}

fn unlock_ctx(l: &LockupToken, caller: Address, receiver_key: Address, receiver: TokenAccount) -> UnlockTokens {
    UnlockTokens {
        program_id: program(),
        payer: signer(caller),
        token_lockup_key: l.token_lockup_key,
        token_lockup: l.token_lockup,
        token_vault_key: l.token_vault_key,
        token_vault: l.token_vault,
        vault_account_key: l.vault_account_key,
        vault_account: l.vault_account,
        receiver_key,
        receiver,
    }
}

/// Alice's vault with Bob's 500 locked until T+3600.
fn locked() -> LockupToken {
    let v = initialized();
    let mut l = lockup_ctx(&v, 1000);
    assert_eq!(lockup_token(&mut l, 500, T + 3600), Ok(()));
    l
}

#[test]
fn initialize_vault_binds_program_authority() {
    let ctx = initialized();
    let (authority, bump) = pda(&[b"vault"]);
    let account = ctx.vault_account.unwrap();
    assert_eq!(account.owner, authority);
    assert_eq!(account.mint, mint());
    assert_eq!(account.amount, 0);
    assert_eq!(
        ctx.token_vault,
        Some(TokenVault { owner: alice(), token_account: ctx.vault_account_key, bump })
    );
}

#[test]
fn initialize_vault_rejects_reinitialization() {
    let mut ctx = initialized();
    let before = ctx;
    assert_eq!(initialize_vault(&mut ctx), Err(UnlockTokensError::AlreadyBound));
    assert_eq!(ctx, before);
}

#[test]
fn initialize_vault_requires_signature() {
    let mut ctx = init_ctx(alice());
    ctx.initializer.is_signer = false;
    assert_eq!(initialize_vault(&mut ctx), Err(UnlockTokensError::UnauthorizedCaller));
    assert_eq!(ctx.vault_account, None);
}

#[test]
fn initialize_vault_rejects_underived_account() {
    let mut ctx = init_ctx(alice());
    ctx.vault_account_key = key(77);
    assert_eq!(initialize_vault(&mut ctx), Err(UnlockTokensError::LinkageMismatch));
    assert_eq!(ctx.token_vault, None);
}

#[test]
fn vault_holding_account_refuses_signed_transfer() {
    let ctx = initialized();
    let mut from = ctx.vault_account.unwrap();
    from.amount = 500;
    let mut to = TokenAccount { mint: mint(), owner: alice(), amount: 0 };
    assert_eq!(
        token_transfer(&mut from, &mut to, 100, &alice()),
        Err(UnlockTokensError::UnauthorizedCaller)
    );
    assert_eq!(from.amount, 500);
    assert_eq!(to.amount, 0);
    let (authority, _) = pda(&[b"vault"]);
    assert_eq!(token_transfer(&mut from, &mut to, 100, &authority), Ok(()));
    assert_eq!((from.amount, to.amount), (400, 100));
}

#[test]
fn lockup_token_moves_amount_and_records_terms() {
    let v = initialized();
    let before = lockup_ctx(&v, 1000);
    let l = locked();
    assert_eq!(l.payer_deposit_token_account.amount, 500);
    assert_eq!(l.vault_account.amount, 500);
    assert_eq!(
        l.payer_deposit_token_account.amount + l.vault_account.amount,
        before.payer_deposit_token_account.amount + before.vault_account.amount
    );
    assert_eq!(
        l.token_lockup,
        Some(TokenLockup {
            amount: 500,
            token_vault: v.token_vault_key,
            unlock_timestamp: T + 3600,
            depositor: bob_tokens(),
            receiver: bob_tokens(),
        })
    );
}

#[test]
fn scenario_a_release_after_unlock_time() {
    let l = locked();
    let bob_account = l.payer_deposit_token_account;
    let mut early = unlock_ctx(&l, bob(), bob_tokens(), bob_account);
    let before = early;
    assert_eq!(unlock_tokens(&mut early, T + 1000), Err(UnlockTokensError::LockupIncomplete));
    assert_eq!(early, before);

    let mut ctx = unlock_ctx(&l, bob(), bob_tokens(), bob_account);
    assert_eq!(unlock_tokens(&mut ctx, T + 3700), Ok(()));
    assert_eq!(ctx.receiver.amount, bob_account.amount + 500);
    assert_eq!(ctx.vault_account.amount, l.vault_account.amount - 500);
    assert_eq!(ctx.token_lockup, None);
}

#[test]
fn scenario_b_third_party_receiver_refused() {
    let l = locked();
    let carol_account = TokenAccount { mint: mint(), owner: carol(), amount: 7 };
    let mut ctx = unlock_ctx(&l, carol(), carol_tokens(), carol_account);
    let before = ctx;
    assert_eq!(unlock_tokens(&mut ctx, T + 3700), Err(UnlockTokensError::LinkageMismatch));
    assert_eq!(ctx, before);
}

#[test]
fn depositor_cannot_redirect_release() {
    let l = locked();
    let carol_account = TokenAccount { mint: mint(), owner: carol(), amount: 0 };
    let mut ctx = unlock_ctx(&l, bob(), carol_tokens(), carol_account);
    assert_eq!(unlock_tokens(&mut ctx, T + 10_000), Err(UnlockTokensError::LinkageMismatch));
    assert_eq!(ctx.token_lockup, l.token_lockup);
}

#[test]
fn scenario_c_insufficient_funds() {
    let v = initialized();
    let mut ctx = lockup_ctx(&v, 50);
    let before = ctx;
    assert_eq!(lockup_token(&mut ctx, 100, T), Err(UnlockTokensError::InsufficientFunds));
    assert_eq!(ctx, before);
    assert_eq!(ctx.token_lockup, None);
}

#[test]
fn lockup_token_errors() {
    let v = initialized();
    let mut unsigned = lockup_ctx(&v, 1000);
    unsigned.payer.is_signer = false;
    assert_eq!(lockup_token(&mut unsigned, 1, T), Err(UnlockTokensError::UnauthorizedCaller));

    let mut other_holding = lockup_ctx(&v, 1000);
    other_holding.vault_account_key = key(55);
    assert_eq!(lockup_token(&mut other_holding, 1, T), Err(UnlockTokensError::LinkageMismatch));

    let mut again = locked();
    assert_eq!(lockup_token(&mut again, 1, T), Err(UnlockTokensError::AlreadyBound));

    let mut wrong_record = lockup_ctx(&v, 1000);
    wrong_record.token_lockup_key = key(56);
    assert_eq!(lockup_token(&mut wrong_record, 1, T), Err(UnlockTokensError::LinkageMismatch));

    let mut not_owner = lockup_ctx(&v, 1000);
    not_owner.payer_deposit_token_account.owner = carol();
    assert_eq!(lockup_token(&mut not_owner, 1, T), Err(UnlockTokensError::UnauthorizedCaller));

    let mut full = lockup_ctx(&v, 1000);
    full.vault_account.amount = u64::MAX;
    assert_eq!(lockup_token(&mut full, 1, T), Err(UnlockTokensError::BalanceOverflow));
}

#[test]
fn release_is_one_shot() {
    let l = locked();
    let mut ctx = unlock_ctx(&l, bob(), bob_tokens(), l.payer_deposit_token_account);
    assert_eq!(unlock_tokens(&mut ctx, T + 3700), Ok(()));
    let after = ctx;
    assert_eq!(unlock_tokens(&mut ctx, T + 9000), Err(UnlockTokensError::LinkageMismatch));
    assert_eq!(ctx, after);
}

#[test]
fn unlock_tokens_errors() {
    let l = locked();
    let mut unsigned = unlock_ctx(&l, bob(), bob_tokens(), l.payer_deposit_token_account);
    unsigned.payer.is_signer = false;
    assert_eq!(unlock_tokens(&mut unsigned, T + 3700), Err(UnlockTokensError::UnauthorizedCaller));

    let mut other_vault = unlock_ctx(&l, bob(), bob_tokens(), l.payer_deposit_token_account);
    other_vault.token_vault_key = key(60);
    assert_eq!(unlock_tokens(&mut other_vault, T + 3700), Err(UnlockTokensError::LinkageMismatch));

    let mut other_holding = unlock_ctx(&l, bob(), bob_tokens(), l.payer_deposit_token_account);
    other_holding.vault_account_key = key(61);
    assert_eq!(unlock_tokens(&mut other_holding, T + 3700), Err(UnlockTokensError::LinkageMismatch));

    let mut wrong_bump = unlock_ctx(&l, bob(), bob_tokens(), l.payer_deposit_token_account);
    wrong_bump.token_vault.bump = wrong_bump.token_vault.bump.wrapping_sub(1);
    let r = unlock_tokens(&mut wrong_bump, T + 3700);
    assert_eq!(r, Err(UnlockTokensError::UnauthorizedCaller));

    let mut full = unlock_ctx(&l, bob(), bob_tokens(), l.payer_deposit_token_account);
    full.receiver.amount = u64::MAX - 1;
    assert_eq!(unlock_tokens(&mut full, T + 3700), Err(UnlockTokensError::BalanceOverflow));
}

fn native_init(owner: Address) -> InitializeNativeVault {
    InitializeNativeVault {
        program_id: program(),
        initializer: signer(owner),
        token_vault_key: pda(&[b"native-token-vault", &owner.bytes]).0,
        token_vault: None,
    }
}

fn native_lockup(v: &InitializeNativeVault, payer: Address, lamports: u64) -> LockupNativeToken {
    LockupNativeToken {
        program_id: program(),
        payer: signer(payer),
        payer_lamports: lamports,
        token_vault_key: v.token_vault_key,
        token_vault: v.token_vault.unwrap(),
        token_vault_lamports: 1_000,
        token_lockup_key: pda(&[b"token-lockup", &payer.bytes, &v.token_vault_key.bytes]).0,
        token_lockup: None,
    }
}

fn native_unlock(l: &LockupNativeToken, receiver_key: Address, receiver_lamports: u64) -> UnlockNativeTokens {
    UnlockNativeTokens {
        program_id: program(),
        payer: l.payer,
        token_lockup_key: l.token_lockup_key,
        token_lockup: l.token_lockup,
        token_vault_key: l.token_vault_key,
        token_vault: l.token_vault,
        token_vault_lamports: l.token_vault_lamports,
        receiver_key,
        receiver_lamports,
    }
}

#[test]
fn initialize_native_vault_records_owner() {
    let mut v = native_init(dave());
    assert_eq!(initialize_native_vault(&mut v), Ok(()));
    assert_eq!(v.token_vault, Some(NativeTokenVault { owner: dave() }));
    assert_eq!(initialize_native_vault(&mut v), Err(UnlockTokensError::AlreadyBound));

    let mut wrong = native_init(dave());
    wrong.token_vault_key = key(90);
    assert_eq!(initialize_native_vault(&mut wrong), Err(UnlockTokensError::LinkageMismatch));

    let mut unsigned = native_init(dave());
    unsigned.initializer.is_signer = false;
    assert_eq!(initialize_native_vault(&mut unsigned), Err(UnlockTokensError::UnauthorizedCaller));
}

#[test]
fn scenario_d_native_past_timestamp_unlocks_at_once() {
    let mut v = native_init(dave());
    assert_eq!(initialize_native_vault(&mut v), Ok(()));
    let mut l = native_lockup(&v, dave(), 100);
    assert_eq!(lockup_native_token(&mut l, 10, T - 60), Ok(()));
    assert_eq!(l.payer_lamports, 90);
    assert_eq!(l.token_vault_lamports, 1_010);
    let mut u = native_unlock(&l, dave(), l.payer_lamports);
    assert_eq!(unlock_native_tokens(&mut u, T), Ok(()));
    assert_eq!(u.receiver_lamports, 100);
    assert_eq!(u.token_vault_lamports, 1_000);
    assert_eq!(u.token_lockup, None);
    assert_eq!(unlock_native_tokens(&mut u, T), Err(UnlockTokensError::LinkageMismatch));
    assert_eq!(u.receiver_lamports, 100);
}

#[test]
fn native_release_rules() {
    let mut v = native_init(dave());
    assert_eq!(initialize_native_vault(&mut v), Ok(()));
    let mut l = native_lockup(&v, dave(), 100);
    assert_eq!(lockup_native_token(&mut l, 10, T + 3600), Ok(()));

    let mut early = native_unlock(&l, dave(), 90);
    assert_eq!(unlock_native_tokens(&mut early, T), Err(UnlockTokensError::LockupIncomplete));
    assert_eq!(early.token_vault_lamports, 1_010);

    let mut other = native_unlock(&l, carol(), 0);
    assert_eq!(unlock_native_tokens(&mut other, T + 3600), Err(UnlockTokensError::LinkageMismatch));

    let mut fake_vault = native_unlock(&l, dave(), 90);
    fake_vault.token_vault.owner = carol();
    assert_eq!(unlock_native_tokens(&mut fake_vault, T + 3600), Err(UnlockTokensError::LinkageMismatch));

    let mut drained = native_unlock(&l, dave(), 90);
    drained.token_vault_lamports = 5;
    assert_eq!(unlock_native_tokens(&mut drained, T + 3600), Err(UnlockTokensError::InsufficientFunds));
}

#[test]
fn native_lockup_errors() {
    let mut v = native_init(dave());
    assert_eq!(initialize_native_vault(&mut v), Ok(()));
    let mut poor = native_lockup(&v, dave(), 5);
    assert_eq!(lockup_native_token(&mut poor, 10, T), Err(UnlockTokensError::InsufficientFunds));
    assert_eq!(poor.token_lockup, None);

    let mut unsigned = native_lockup(&v, dave(), 100);
    unsigned.payer.is_signer = false;
    assert_eq!(lockup_native_token(&mut unsigned, 10, T), Err(UnlockTokensError::UnauthorizedCaller));

    let mut fake = native_lockup(&v, dave(), 100);
    fake.token_vault_key = key(91);
    assert_eq!(lockup_native_token(&mut fake, 10, T), Err(UnlockTokensError::LinkageMismatch));
}

#[test]
fn ledger_primitives() {
    let (mut a, mut b) = (10u64, u64::MAX - 3);
    assert_eq!(lamport_transfer(&mut a, &mut b, 11), Err(UnlockTokensError::InsufficientFunds));
    assert_eq!(lamport_transfer(&mut a, &mut b, 4), Err(UnlockTokensError::BalanceOverflow));
    assert_eq!(lamport_transfer(&mut a, &mut b, 3), Ok(()));
    assert_eq!((a, b), (7, u64::MAX));

    let mut account = TokenAccount { mint: mint(), owner: alice(), amount: 3 };
    assert_eq!(
        set_authority(&mut account, &signer(bob()), &carol()),
        Err(UnlockTokensError::UnauthorizedCaller)
    );
    assert_eq!(set_authority(&mut account, &signer(alice()), &carol()), Ok(()));
    assert_eq!(account.owner, carol());

    let mut other_mint = TokenAccount { mint: key(8), owner: bob(), amount: 0 };
    assert_eq!(
        token_transfer(&mut account, &mut other_mint, 1, &carol()),
        Err(UnlockTokensError::LinkageMismatch)
    );
}

#[test]
fn derivation_matches_host_ledger() {
    let seeds = vec![b"token-seed".to_vec(), mint().bytes.to_vec()];
    let expected = pda(&[b"token-seed", &mint().bytes]);
    assert_eq!(find_address(&seeds, &program()), Some(expected));
    assert!(is_derived(&seeds, &program(), &expected.0));
    assert!(!is_derived(&seeds, &program(), &mint()));
    assert_eq!(create_address(vec![b"token-seed".to_vec(), mint().bytes.to_vec()], expected.1, &program()), Some(expected.0));
    assert_ne!(expected.0, program());
}

#[test]
fn address_comparison_and_seed() {
    assert!(key(5).same(&key(5)));
    let mut bytes = [5u8; 32];
    bytes[31] = 6;
    assert!(!key(5).same(&Address::new(bytes)));
    assert_eq!(Address::new(bytes).to_seed(), bytes.to_vec());
}
