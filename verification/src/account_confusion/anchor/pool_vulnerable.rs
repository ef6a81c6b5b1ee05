//! A lending pool whose admin withdrawal reads the pool's bytes past the
//! discriminator without checking it, so a user vault, whose owner sits where a
//! pool keeps its authority, passes as the pool.
//! Pool bytes: discriminator at 0..8, authority at 8..40, total liquidity at
//! 40..48, active flag at 48; a user vault has its owner, deposit and flag at
//! the same offsets.
use crate::bytes::{bytes_at, bytes_eq_key, le_u64_at, read_u64_le, u64_le_bytes};
use crate::framework::{
    check_program, check_seeds, check_signer, check_uninitialized, in_use_error, is_pda, is_unused, seed_list1,
    seed_list2, Account, Error, ErrorCode, SystemTransfer, SYSTEM_PROGRAM_ID,
};
use crate::runtime::{account_is, AccountInfo, Pubkey};
use vstd::prelude::*;

verus! {

/// The program's address, `9pMkZNdEoKDq34aNvRh9LBPCxV9gPjWGW7dDqwx5VVVb`.
pub const ID: Pubkey = [
    130, 255, 65, 181, 45, 200, 49, 31, 66, 193, 24, 0, 216, 129, 70, 150, 30, 45, 77, 81, 141, 78,
    248, 184, 202, 200, 68, 183, 246, 127, 185, 234,
];

/// The bytes of `"pool"`.
pub const POOL_SEED: [u8; 4] = [112, 111, 111, 108];

/// The bytes of `"vault"`.
pub const VAULT_SEED: [u8; 5] = [118, 97, 117, 108, 116];

/// The first eight bytes of a `UserVault` account: the start of SHA-256 of
/// `"account:UserVault"`.
pub const USER_VAULT_DISCRIMINATOR: [u8; 8] = [23, 76, 96, 159, 210, 10, 5, 22];

pub const AUTHORITY_OFFSET: usize = 8;
pub const LIQUIDITY_OFFSET: usize = 40;

#[derive(Clone, Copy, Debug, PartialEq, Eq)]
pub struct Pool {
    pub authority: Pubkey,
    pub total_liquidity: u64,
    pub is_active: bool,
}

#[derive(Clone, Copy, Debug, PartialEq, Eq)]
pub struct UserVault {
    pub owner: Pubkey,
    pub deposited_amount: u64,
    pub is_initialized: bool,
}

#[derive(Clone, Copy, Debug, PartialEq, Eq)]
pub enum PoolError {
    PoolInactive,
    NotVaultOwner,
    NotAuthority,
    InsufficientLiquidity,
    InvalidAccountData,
}

pub struct InitializePool {
    pub pool: AccountInfo,
    pub authority: AccountInfo,
}

pub struct CreateUserVault {
    pub user_vault: AccountInfo,
    pub owner: AccountInfo,
}

pub struct Deposit {
    pub pool: Account<Pool>,
    pub user_vault: Account<UserVault>,
    pub depositor: AccountInfo,
    pub system_program: AccountInfo,
}

/// The event an admin withdrawal emits: the pool, the authority, how much.
#[derive(Clone, Copy, Debug, PartialEq, Eq)]
pub struct AdminWithdrawal {
    pub pool: Pubkey,
    pub authority: Pubkey,
    pub amount: u64,
}

/// Accounts of `admin_withdraw`: the "pool" is any account the caller passes.
pub struct AdminWithdraw {
    pub pool: AccountInfo,
    pub authority: AccountInfo,
    pub recipient: AccountInfo,
}

/// The event a new pool emits.
#[derive(Clone, Copy, Debug, PartialEq, Eq)]
pub struct PoolInitialized {
    pub pool: Pubkey,
    pub authority: Pubkey,
}

/// The event a new user vault emits.
#[derive(Clone, Copy, Debug, PartialEq, Eq)]
pub struct UserVaultCreated {
    pub vault: Pubkey,
    pub owner: Pubkey,
}

/// The event a deposit emits.
#[derive(Clone, Copy, Debug, PartialEq, Eq)]
pub struct Deposited {
    pub pool: Pubkey,
    pub vault: Pubkey,
    pub depositor: Pubkey,
    pub amount: u64,
}

/// What `initialize_pool` returns: an active, empty pool of the signing
/// authority at its derived address, or the first failed check.
pub open spec fn initialize_pool_result(ctx: InitializePool) -> Result<(Pool, PoolInitialized), Error<PoolError>> {
    if !ctx.authority.is_signer {
        Err(Error::Anchor(ErrorCode::AccountNotSigner))
    } else if !is_pda(ctx.pool.key@, seq![POOL_SEED@], ID@) {
        Err(Error::Anchor(ErrorCode::ConstraintSeeds))
    } else if !is_unused(ctx.pool) {
        Err(in_use_error())
    } else {
        Ok((Pool { authority: ctx.authority.key, total_liquidity: 0, is_active: true }, PoolInitialized { pool: ctx.pool.key, authority: ctx.authority.key }))
    }
}

pub fn initialize_pool(ctx: &InitializePool) -> (r: Result<(Pool, PoolInitialized), Error<PoolError>>)
    ensures
        r == initialize_pool_result(*ctx),
{
    check_signer(&ctx.authority)?;
    check_seeds(&ctx.pool.key, &seed_list1(&POOL_SEED), &ID)?;
    check_uninitialized(&ctx.pool)?;
    Ok((Pool { authority: ctx.authority.key, total_liquidity: 0, is_active: true }, PoolInitialized { pool: ctx.pool.key, authority: ctx.authority.key }))
}

/// The seeds of an owner's vault address: `"vault"` and the owner's key.
pub open spec fn vault_seeds(owner: Seq<u8>) -> Seq<Seq<u8>> {
    seq![VAULT_SEED@, owner]
}

/// What `create_user_vault` returns: an empty vault of the signing owner at its
/// derived address, or the first failed check.
pub open spec fn create_user_vault_result(ctx: CreateUserVault) -> Result<(UserVault, UserVaultCreated), Error<PoolError>> {
    if !ctx.owner.is_signer {
        Err(Error::Anchor(ErrorCode::AccountNotSigner))
    } else if !is_pda(ctx.user_vault.key@, vault_seeds(ctx.owner.key@), ID@) {
        Err(Error::Anchor(ErrorCode::ConstraintSeeds))
    } else if !is_unused(ctx.user_vault) {
        Err(in_use_error())
    } else {
        Ok((UserVault { owner: ctx.owner.key, deposited_amount: 0, is_initialized: true }, UserVaultCreated { vault: ctx.user_vault.key, owner: ctx.owner.key }))
    }
}

pub fn create_user_vault(ctx: &CreateUserVault) -> (r: Result<(UserVault, UserVaultCreated), Error<PoolError>>)
    ensures
        r == create_user_vault_result(*ctx),
{
    check_signer(&ctx.owner)?;
    check_seeds(&ctx.user_vault.key, &seed_list2(&VAULT_SEED, &ctx.owner.key), &ID)?;
    check_uninitialized(&ctx.user_vault)?;
    Ok((UserVault { owner: ctx.owner.key, deposited_amount: 0, is_initialized: true }, UserVaultCreated { vault: ctx.user_vault.key, owner: ctx.owner.key }))
}

/// The error `deposit` fails with before its transfer, if any.
pub open spec fn deposit_error(ctx: Deposit) -> Option<Error<PoolError>> {
    if !ctx.depositor.is_signer {
        Some(Error::Anchor(ErrorCode::AccountNotSigner))
    } else if ctx.system_program.key@ != SYSTEM_PROGRAM_ID@ {
        Some(Error::Anchor(ErrorCode::InvalidProgramId))
    } else if !ctx.system_program.executable {
        Some(Error::Anchor(ErrorCode::InvalidProgramExecutable))
    } else if !ctx.pool.data.is_active {
        Some(Error::Program(PoolError::PoolInactive))
    } else if ctx.user_vault.data.owner@ != ctx.depositor.key@ {
        Some(Error::Program(PoolError::NotVaultOwner))
    } else {
        None
    }
}

/// Records a deposit of `amount` in the depositor's vault and the active pool's
/// liquidity, and returns the transfer of the lamports from the depositor to
/// the pool, which the caller has the system program make.
pub fn deposit(ctx: &mut Deposit, amount: u64) -> (r: Result<(SystemTransfer, Deposited), Error<PoolError>>)
    requires
        deposit_error(*old(ctx)) is None ==> {
            &&& old(ctx).user_vault.data.deposited_amount + amount <= u64::MAX
            &&& old(ctx).pool.data.total_liquidity + amount <= u64::MAX
        },
    ensures
        match deposit_error(*old(ctx)) {
            Some(e) => r == Err::<(SystemTransfer, Deposited), Error<PoolError>>(e) && *final(ctx) == *old(ctx),
            None => {
                &&& r == Ok::<(SystemTransfer, Deposited), Error<PoolError>>((
                    SystemTransfer { from: old(ctx).depositor.key, to: old(ctx).pool.key, lamports: amount },
                    Deposited { pool: old(ctx).pool.key, vault: old(ctx).user_vault.key, depositor: old(ctx).depositor.key, amount },
                ))
                &&& final(ctx).pool == (Account {
                    data: Pool { total_liquidity: (old(ctx).pool.data.total_liquidity + amount) as u64, ..old(ctx).pool.data },
                    ..old(ctx).pool
                })
                &&& final(ctx).user_vault == (Account {
                    data: UserVault {
                        deposited_amount: (old(ctx).user_vault.data.deposited_amount + amount) as u64,
                        ..old(ctx).user_vault.data
                    },
                    ..old(ctx).user_vault
                })
                &&& final(ctx).depositor == old(ctx).depositor
                &&& final(ctx).system_program == old(ctx).system_program
            },
        },
{
    check_signer(&ctx.depositor)?;
    check_program(&ctx.system_program, &SYSTEM_PROGRAM_ID)?;
    if !ctx.pool.data.is_active {
        return Err(Error::Program(PoolError::PoolInactive));
    }
    if !crate::bytes::keys_eq(&ctx.user_vault.data.owner, &ctx.depositor.key) {
        return Err(Error::Program(PoolError::NotVaultOwner));
    }
    ctx.user_vault.data.deposited_amount = ctx.user_vault.data.deposited_amount + amount;
    ctx.pool.data.total_liquidity = ctx.pool.data.total_liquidity + amount;
    Ok((
        SystemTransfer { from: ctx.depositor.key, to: ctx.pool.key, lamports: amount },
        Deposited { pool: ctx.pool.key, vault: ctx.user_vault.key, depositor: ctx.depositor.key, amount },
    ))
}

/// The error `admin_withdraw` fails with, if any: the authority must sign, the
/// account hold 49 bytes, and bytes 8..40 name the authority and bytes 40..48
/// hold at least `amount`, whatever the account's type or owner.
pub open spec fn admin_withdraw_error(ctx: AdminWithdraw, amount: u64) -> Option<Error<PoolError>> {
    let data = ctx.pool.data@;
    if !ctx.authority.is_signer {
        Some(Error::Anchor(ErrorCode::AccountNotSigner))
    } else if data.len() < 49 {
        Some(Error::Program(PoolError::InvalidAccountData))
    } else if bytes_at(data, AUTHORITY_OFFSET as int, 32) != ctx.authority.key@ {
        Some(Error::Program(PoolError::NotAuthority))
    } else if le_u64_at(data, LIQUIDITY_OFFSET as int) < amount {
        Some(Error::Program(PoolError::InsufficientLiquidity))
    } else {
        None
    }
}

/// Pays `amount` lamports from the account passed as pool to the recipient,
/// for whoever its bytes name as authority; the recorded liquidity is not updated.
pub fn admin_withdraw(ctx: &mut AdminWithdraw, amount: u64) -> (r: Result<AdminWithdrawal, Error<PoolError>>)
    requires
        admin_withdraw_error(*old(ctx), amount) is None ==> {
            &&& old(ctx).pool.lamports >= amount
            &&& old(ctx).recipient.lamports + amount <= u64::MAX
        },
    ensures
        match admin_withdraw_error(*old(ctx), amount) {
            Some(e) => r == Err::<AdminWithdrawal, Error<PoolError>>(e) && *final(ctx) == *old(ctx),
            None => {
                &&& r == Ok::<AdminWithdrawal, Error<PoolError>>(AdminWithdrawal {
                    pool: old(ctx).pool.key, authority: old(ctx).authority.key, amount })
                &&& account_is(final(ctx).pool, old(ctx).pool, (old(ctx).pool.lamports - amount) as u64, old(ctx).pool.data@)
                &&& account_is(final(ctx).recipient, old(ctx).recipient, (old(ctx).recipient.lamports + amount) as u64, old(ctx).recipient.data@)
                &&& final(ctx).authority == old(ctx).authority
            },
        },
{
    check_signer(&ctx.authority)?;
    if ctx.pool.data.len() < 49 {
        return Err(Error::Program(PoolError::InvalidAccountData));
    }
    let authority = ctx.authority.key;
    if !bytes_eq_key(&ctx.pool.data, AUTHORITY_OFFSET, &authority) {
        return Err(Error::Program(PoolError::NotAuthority));
    }
    if read_u64_le(&ctx.pool.data, LIQUIDITY_OFFSET) < amount {
        return Err(Error::Program(PoolError::InsufficientLiquidity));
    }
    ctx.pool.lamports = ctx.pool.lamports - amount;
    ctx.recipient.lamports = ctx.recipient.lamports + amount;
    Ok(AdminWithdrawal { pool: ctx.pool.key, authority: ctx.authority.key, amount })
}

/// The byte a `bool` is stored as.
pub open spec fn bool_byte(b: bool) -> u8 {
    if b { 1u8 } else { 0u8 }
}

/// The bytes of a user vault account holding `v`.
pub open spec fn user_vault_bytes(v: UserVault) -> Seq<u8> {
    USER_VAULT_DISCRIMINATOR@ + v.owner@ + u64_le_bytes(v.deposited_amount) + seq![bool_byte(v.is_initialized)]
}

/// A user vault passes as a pool: its owner, signing, withdraws up to its
/// recorded deposit from whatever account holds the vault's bytes.
pub proof fn user_vault_passes_as_pool(v: UserVault, ctx: AdminWithdraw, amount: u64)
    requires
        ctx.pool.data@ == user_vault_bytes(v),
        ctx.authority.is_signer,
        ctx.authority.key == v.owner,
        amount <= v.deposited_amount,
    ensures
        admin_withdraw_error(ctx, amount) is None,
{
    let b = user_vault_bytes(v);
    assert(bytes_at(b, 8, 32) =~= v.owner@);
    assert(bytes_at(b, 40, 8) =~= u64_le_bytes(v.deposited_amount));
    crate::bytes::lemma_u64_roundtrip(v.deposited_amount);
    assert(le_u64_at(b, 40) == le_u64_at(u64_le_bytes(v.deposited_amount), 0));
}

} // verus!
