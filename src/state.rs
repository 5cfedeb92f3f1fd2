//! Records kept by the vault program and the account data it reads.
use vstd::prelude::*;
use crate::address::Address;

verus! {

/// Why an instruction was refused. A refused instruction changes nothing.
#[derive(Clone, Copy, Debug, PartialEq, Eq, Structural)]
pub enum UnlockTokensError {
    /// The unlock time of the lockup has not been reached.
    LockupIncomplete,
    /// A supplied account does not match the one a vault or lockup records,
    /// or the lockup record does not exist.
    LinkageMismatch,
    /// The source balance is below the amount to move.
    InsufficientFunds,
    /// A required signature or spending authority is missing.
    UnauthorizedCaller,
    /// The account to be created exists already.
    AlreadyBound,
    /// The destination balance would exceed `u64::MAX`.
    BalanceOverflow,
    /// No program-derived address exists for the seeds.
    AddressUnavailable,
}

/// An account passed to an instruction, with whether it signed the call.
#[derive(Clone, Copy, Debug, PartialEq, Eq)]
pub struct SignerInfo {
    pub key: Address,
    pub is_signer: bool,
}

/// A fungible-asset holding account: its asset type, the key allowed to
/// spend from it, and its balance.
#[derive(Clone, Copy, Debug, PartialEq, Eq)]
pub struct TokenAccount {
    pub mint: Address,
    pub owner: Address,
    pub amount: u64,
}

/// An asset vault: its administrator, its holding account, and the bump seed
/// of the program-derived address that holds the spending authority.
#[derive(Clone, Copy, Debug, PartialEq, Eq)]
pub struct TokenVault {
    pub owner: Address,
    pub token_account: Address,
    pub bump: u8,
}

/// A native-value vault: the vault account itself holds the value.
#[derive(Clone, Copy, Debug, PartialEq, Eq)]
pub struct NativeTokenVault {
    pub owner: Address,
}

/// One deposit: its amount, its vault, when it may be released, who made it
/// and who may receive it. It is never changed after creation.
#[derive(Clone, Copy, Debug, PartialEq, Eq)]
pub struct TokenLockup {
    pub amount: u64,
    pub token_vault: Address,
    pub unlock_timestamp: i64,
    pub depositor: Address,
    pub receiver: Address,
}

/// Seed of the address that holds the spending authority of asset vaults: "vault".
pub open spec fn vault_seed() -> Seq<u8> {
    seq![118u8, 97, 117, 108, 116]
}

/// Seed of asset holding accounts: "token-seed".
pub open spec fn token_seed() -> Seq<u8> {
    seq![116u8, 111, 107, 101, 110, 45, 115, 101, 101, 100]
}

/// Seed of asset vault records: "token-vault".
pub open spec fn token_vault_seed() -> Seq<u8> {
    seq![116u8, 111, 107, 101, 110, 45, 118, 97, 117, 108, 116]
}

/// Seed of lockup records: "token-lockup".
pub open spec fn token_lockup_seed() -> Seq<u8> {
    seq![116u8, 111, 107, 101, 110, 45, 108, 111, 99, 107, 117, 112]
}

/// Seed of native vaults: "native-token-vault".
pub open spec fn native_vault_seed() -> Seq<u8> {
    seq![110u8, 97, 116, 105, 118, 101, 45, 116, 111, 107, 101, 110, 45, 118, 97, 117, 108, 116]
}

pub fn vault_seed_bytes() -> (r: Vec<u8>)
    ensures
        r@ == vault_seed(),
{
    let r = vec![118u8, 97, 117, 108, 116];
    assert(r@ =~= vault_seed());
    r
}

pub fn token_seed_bytes() -> (r: Vec<u8>)
    ensures
        r@ == token_seed(),
{
    let r = vec![116u8, 111, 107, 101, 110, 45, 115, 101, 101, 100];
    assert(r@ =~= token_seed());
    r
}

pub fn token_vault_seed_bytes() -> (r: Vec<u8>)
    ensures
        r@ == token_vault_seed(),
{
    let r = vec![116u8, 111, 107, 101, 110, 45, 118, 97, 117, 108, 116];
    assert(r@ =~= token_vault_seed());
    r
}

pub fn token_lockup_seed_bytes() -> (r: Vec<u8>)
    ensures
        r@ == token_lockup_seed(),
{
    let r = vec![116u8, 111, 107, 101, 110, 45, 108, 111, 99, 107, 117, 112];
    assert(r@ =~= token_lockup_seed());
    r
}

pub fn native_vault_seed_bytes() -> (r: Vec<u8>)
    ensures
        r@ == native_vault_seed(),
{
    let r = vec![110u8, 97, 116, 105, 118, 101, 45, 116, 111, 107, 101, 110, 45, 118, 97, 117, 108, 116];
    assert(r@ =~= native_vault_seed());
    r
}

} // verus!
