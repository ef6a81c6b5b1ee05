//! A lending pool whose admin withdrawal loads the pool as a typed account, so
//! a user vault with the same layout is refused; every account also carries an
//! explicit type tag that the withdrawals check.
//! Pool bytes: discriminator at 0..8, type tag at 8, authority at 9..41, total
//! liquidity at 41..49, active flag at 49.
use crate::bytes::{bytes_at, bytes_eq_key, le_u64_at, put_u64, read_u64_le, write_u64_le};
use crate::framework::{
    account_load_error, check_account, check_program, check_seeds, check_signer, check_uninitialized, in_use_error,
    is_pda, is_unused, seed_list1, seed_list2, Account, Error, ErrorCode, SystemTransfer, SYSTEM_PROGRAM_ID,
};
use crate::runtime::{account_is, AccountInfo, Pubkey};
use vstd::prelude::*;

verus! {

/// The program's address, `8qNkZNdEoKDq34aNvRh9LBPCxV9gPjWGW7dDqwx5VVVF`.
pub const ID: Pubkey = [
    116, 102, 72, 0, 119, 232, 85, 141, 39, 20, 150, 136, 67, 250, 42, 244, 179, 219, 72, 4, 114, 2,
    128, 19, 209, 184, 58, 183, 246, 127, 185, 214,
];

/// The bytes of `"pool"`.
pub const POOL_SEED: [u8; 4] = [112, 111, 111, 108];

/// The bytes of `"vault"`.
pub const VAULT_SEED: [u8; 5] = [118, 97, 117, 108, 116];

/// The first eight bytes of a `Pool` account: the start of SHA-256 of `"account:Pool"`.
pub const POOL_DISCRIMINATOR: [u8; 8] = [241, 154, 109, 4, 17, 177, 109, 188];

/// The first eight bytes of a `UserVault` account: the start of SHA-256 of
/// `"account:UserVault"`.
pub const USER_VAULT_DISCRIMINATOR: [u8; 8] = [23, 76, 96, 159, 210, 10, 5, 22];

/// The bytes a pool's (or a vault's) fields take after the discriminator.
pub const POOL_SIZE: usize = 42;

/// Offsets of a pool's fields in its account bytes.
pub const TYPE_TAG_OFFSET: usize = 8;
pub const AUTHORITY_OFFSET: usize = 9;
pub const LIQUIDITY_OFFSET: usize = 41;
pub const ACTIVE_FLAG_OFFSET: usize = 49;

/// The explicit type tag every account carries; stored as its variant index.
#[derive(Clone, Copy, Debug, PartialEq, Eq)]
pub enum AccountType {
    Pool,
    UserVault,
}

#[derive(Clone, Copy, Debug, PartialEq, Eq)]
pub struct Pool {
    pub account_type: AccountType,
    pub authority: Pubkey,
    pub total_liquidity: u64,
    pub is_active: bool,
}

#[derive(Clone, Copy, Debug, PartialEq, Eq)]
pub struct UserVault {
    pub account_type: AccountType,
    pub owner: Pubkey,
    pub deposited_amount: u64,
    pub is_initialized: bool,
}

#[derive(Clone, Copy, Debug, PartialEq, Eq)]
pub enum PoolError {
    PoolInactive,
    NotVaultOwner,
    NotAuthority,
    InsufficientLiquidity,
    InvalidDiscriminator,
    WrongProgramOwner,
    WrongAccountType,
}

pub struct InitializePool {
    pub pool: AccountInfo,
    pub authority: AccountInfo,
}

pub struct CreateUserVault {
    pub user_vault: AccountInfo,
    pub owner: AccountInfo,
}

pub struct Deposit {
    pub pool: Account<Pool>,
    pub user_vault: Account<UserVault>,
    pub depositor: AccountInfo,
    pub system_program: AccountInfo,
}

/// The event an admin withdrawal emits: the pool, the authority, how much.
#[derive(Clone, Copy, Debug, PartialEq, Eq)]
pub struct AdminWithdrawal {
    pub pool: Pubkey,
    pub authority: Pubkey,
    pub amount: u64,
}

/// Accounts of `admin_withdraw`: the pool as the runtime hands it over, loaded
/// here as a typed account.
pub struct AdminWithdraw {
    pub pool: AccountInfo,
    pub authority: AccountInfo,
    pub recipient: AccountInfo,
}

/// Accounts of `admin_withdraw_manual_validation`: the pool as the runtime
/// hands it over, checked by hand.
pub struct AdminWithdrawManual {
    pub pool: AccountInfo,
    pub authority: AccountInfo,
    pub recipient: AccountInfo,
}

/// The event a new pool emits.
#[derive(Clone, Copy, Debug, PartialEq, Eq)]
pub struct PoolInitialized {
    pub pool: Pubkey,
    pub authority: Pubkey,
}

/// The event a new user vault emits.
#[derive(Clone, Copy, Debug, PartialEq, Eq)]
pub struct UserVaultCreated {
    pub vault: Pubkey,
    pub owner: Pubkey,
}

/// The event a deposit emits.
#[derive(Clone, Copy, Debug, PartialEq, Eq)]
pub struct Deposited {
    pub pool: Pubkey,
    pub vault: Pubkey,
    pub depositor: Pubkey,
    pub amount: u64,
}

/// What `initialize_pool` returns: an active, empty pool of the signing
/// authority at its derived address, or the first failed check.
pub open spec fn initialize_pool_result(ctx: InitializePool) -> Result<(Pool, PoolInitialized), Error<PoolError>> {
    if !ctx.authority.is_signer {
        Err(Error::Anchor(ErrorCode::AccountNotSigner))
    } else if !is_pda(ctx.pool.key@, seq![POOL_SEED@], ID@) {
        Err(Error::Anchor(ErrorCode::ConstraintSeeds))
    } else if !is_unused(ctx.pool) {
        Err(in_use_error())
    } else {
        Ok((Pool { account_type: AccountType::Pool, authority: ctx.authority.key, total_liquidity: 0, is_active: true }, PoolInitialized { pool: ctx.pool.key, authority: ctx.authority.key }))
    }
}

pub fn initialize_pool(ctx: &InitializePool) -> (r: Result<(Pool, PoolInitialized), Error<PoolError>>)
    ensures
        r == initialize_pool_result(*ctx),
{
    check_signer(&ctx.authority)?;
    check_seeds(&ctx.pool.key, &seed_list1(&POOL_SEED), &ID)?;
    check_uninitialized(&ctx.pool)?;
    Ok((Pool { account_type: AccountType::Pool, authority: ctx.authority.key, total_liquidity: 0, is_active: true }, PoolInitialized { pool: ctx.pool.key, authority: ctx.authority.key }))
}

/// The seeds of an owner's vault address: `"vault"` and the owner's key.
pub open spec fn vault_seeds(owner: Seq<u8>) -> Seq<Seq<u8>> {
    seq![VAULT_SEED@, owner]
}

/// What `create_user_vault` returns: an empty vault of the signing owner at its
/// derived address, or the first failed check.
pub open spec fn create_user_vault_result(ctx: CreateUserVault) -> Result<(UserVault, UserVaultCreated), Error<PoolError>> {
    if !ctx.owner.is_signer {
        Err(Error::Anchor(ErrorCode::AccountNotSigner))
    } else if !is_pda(ctx.user_vault.key@, vault_seeds(ctx.owner.key@), ID@) {
        Err(Error::Anchor(ErrorCode::ConstraintSeeds))
    } else if !is_unused(ctx.user_vault) {
        Err(in_use_error())
    } else {
        Ok((UserVault {
            account_type: AccountType::UserVault,
            owner: ctx.owner.key,
            deposited_amount: 0,
            is_initialized: true,
        }, UserVaultCreated { vault: ctx.user_vault.key, owner: ctx.owner.key }))
    }
}

pub fn create_user_vault(ctx: &CreateUserVault) -> (r: Result<(UserVault, UserVaultCreated), Error<PoolError>>)
    ensures
        r == create_user_vault_result(*ctx),
{
    check_signer(&ctx.owner)?;
    check_seeds(&ctx.user_vault.key, &seed_list2(&VAULT_SEED, &ctx.owner.key), &ID)?;
    check_uninitialized(&ctx.user_vault)?;
    Ok((UserVault {
        account_type: AccountType::UserVault,
        owner: ctx.owner.key,
        deposited_amount: 0,
        is_initialized: true,
    }, UserVaultCreated { vault: ctx.user_vault.key, owner: ctx.owner.key }))
}

/// The error `deposit` fails with before its transfer, if any.
pub open spec fn deposit_error(ctx: Deposit) -> Option<Error<PoolError>> {
    if !ctx.depositor.is_signer {
        Some(Error::Anchor(ErrorCode::AccountNotSigner))
    } else if ctx.system_program.key@ != SYSTEM_PROGRAM_ID@ {
        Some(Error::Anchor(ErrorCode::InvalidProgramId))
    } else if !ctx.system_program.executable {
        Some(Error::Anchor(ErrorCode::InvalidProgramExecutable))
    } else if !ctx.pool.data.is_active {
        Some(Error::Program(PoolError::PoolInactive))
    } else if ctx.user_vault.data.owner@ != ctx.depositor.key@ {
        Some(Error::Program(PoolError::NotVaultOwner))
    } else {
        None
    }
}

/// Records a deposit of `amount` in the depositor's vault and the active pool's
/// liquidity, and returns the transfer of the lamports from the depositor to
/// the pool, which the caller has the system program make.
pub fn deposit(ctx: &mut Deposit, amount: u64) -> (r: Result<(SystemTransfer, Deposited), Error<PoolError>>)
    requires
        deposit_error(*old(ctx)) is None ==> {
            &&& old(ctx).user_vault.data.deposited_amount + amount <= u64::MAX
            &&& old(ctx).pool.data.total_liquidity + amount <= u64::MAX
        },
    ensures
        match deposit_error(*old(ctx)) {
            Some(e) => r == Err::<(SystemTransfer, Deposited), Error<PoolError>>(e) && *final(ctx) == *old(ctx),
            None => {
                &&& r == Ok::<(SystemTransfer, Deposited), Error<PoolError>>((
                    SystemTransfer { from: old(ctx).depositor.key, to: old(ctx).pool.key, lamports: amount },
                    Deposited { pool: old(ctx).pool.key, vault: old(ctx).user_vault.key, depositor: old(ctx).depositor.key, amount },
                ))
                &&& final(ctx).pool == (Account {
                    data: Pool { total_liquidity: (old(ctx).pool.data.total_liquidity + amount) as u64, ..old(ctx).pool.data },
                    ..old(ctx).pool
                })
                &&& final(ctx).user_vault == (Account {
                    data: UserVault {
                        deposited_amount: (old(ctx).user_vault.data.deposited_amount + amount) as u64,
                        ..old(ctx).user_vault.data
                    },
                    ..old(ctx).user_vault
                })
                &&& final(ctx).depositor == old(ctx).depositor
                &&& final(ctx).system_program == old(ctx).system_program
            },
        },
{
    check_signer(&ctx.depositor)?;
    check_program(&ctx.system_program, &SYSTEM_PROGRAM_ID)?;
    if !ctx.pool.data.is_active {
        return Err(Error::Program(PoolError::PoolInactive));
    }
    if !crate::bytes::keys_eq(&ctx.user_vault.data.owner, &ctx.depositor.key) {
        return Err(Error::Program(PoolError::NotVaultOwner));
    }
    ctx.user_vault.data.deposited_amount = ctx.user_vault.data.deposited_amount + amount;
    ctx.pool.data.total_liquidity = ctx.pool.data.total_liquidity + amount;
    Ok((
        SystemTransfer { from: ctx.depositor.key, to: ctx.pool.key, lamports: amount },
        Deposited { pool: ctx.pool.key, vault: ctx.user_vault.key, depositor: ctx.depositor.key, amount },
    ))
}

/// The error loading `pool` as a `Pool` of this program fails with, if any:
/// Anchor's checks, then a type tag or active flag that is not a valid value.
pub open spec fn pool_load_error(pool: AccountInfo) -> Option<ErrorCode> {
    match account_load_error(pool, ID@, POOL_DISCRIMINATOR@, POOL_SIZE as int) {
        Some(e) => Some(e),
        None => if pool.data@[TYPE_TAG_OFFSET as int] > 1 || pool.data@[ACTIVE_FLAG_OFFSET as int] > 1 {
            Some(ErrorCode::AccountDidNotDeserialize)
        } else {
            None
        },
    }
}

/// The error `admin_withdraw` fails with, if any: the pool must load, the
/// authority sign, the pool be at its derived address with that authority,
/// hold at least `amount` of liquidity and be tagged as a pool.
pub open spec fn admin_withdraw_error(ctx: AdminWithdraw, amount: u64) -> Option<Error<PoolError>> {
    let data = ctx.pool.data@;
    match pool_load_error(ctx.pool) {
        Some(e) => Some(Error::Anchor(e)),
        None => if !ctx.authority.is_signer {
            Some(Error::Anchor(ErrorCode::AccountNotSigner))
        } else if !is_pda(ctx.pool.key@, seq![POOL_SEED@], ID@) {
            Some(Error::Anchor(ErrorCode::ConstraintSeeds))
        } else if bytes_at(data, AUTHORITY_OFFSET as int, 32) != ctx.authority.key@ {
            Some(Error::Program(PoolError::NotAuthority))
        } else if le_u64_at(data, LIQUIDITY_OFFSET as int) < amount {
            Some(Error::Program(PoolError::InsufficientLiquidity))
        } else if data[TYPE_TAG_OFFSET as int] != 0 {
            Some(Error::Program(PoolError::WrongAccountType))
        } else {
            None
        }
    }
}

/// Whether every check of `admin_withdraw` but the address check passes.
pub open spec fn admin_withdraw_authorized(ctx: AdminWithdraw, amount: u64) -> bool {
    let data = ctx.pool.data@;
    &&& pool_load_error(ctx.pool) is None
    &&& ctx.authority.is_signer
    &&& bytes_at(data, AUTHORITY_OFFSET as int, 32) == ctx.authority.key@
    &&& le_u64_at(data, LIQUIDITY_OFFSET as int) >= amount
    &&& data[TYPE_TAG_OFFSET as int] == 0
}

/// Pays `amount` lamports from the pool to the recipient and takes it off the
/// pool's liquidity, for the pool's authority.
pub fn admin_withdraw(ctx: &mut AdminWithdraw, amount: u64) -> (r: Result<AdminWithdrawal, Error<PoolError>>)
    requires
        admin_withdraw_authorized(*old(ctx), amount) ==> {
            &&& old(ctx).pool.lamports >= amount
            &&& old(ctx).recipient.lamports + amount <= u64::MAX
        },
    ensures
        match admin_withdraw_error(*old(ctx), amount) {
            Some(e) => r == Err::<AdminWithdrawal, Error<PoolError>>(e) && *final(ctx) == *old(ctx),
            None => {
                let data = old(ctx).pool.data@;
                &&& r == Ok::<AdminWithdrawal, Error<PoolError>>(AdminWithdrawal {
                    pool: old(ctx).pool.key, authority: old(ctx).authority.key, amount })
                &&& account_is(
                    final(ctx).pool,
                    old(ctx).pool,
                    (old(ctx).pool.lamports - amount) as u64,
                    put_u64(data, LIQUIDITY_OFFSET as int, (le_u64_at(data, LIQUIDITY_OFFSET as int) - amount) as u64),
                )
                &&& account_is(final(ctx).recipient, old(ctx).recipient, (old(ctx).recipient.lamports + amount) as u64, old(ctx).recipient.data@)
                &&& final(ctx).authority == old(ctx).authority
            },
        },
{
    check_account(&ctx.pool, &ID, &POOL_DISCRIMINATOR, POOL_SIZE)?;
    if ctx.pool.data[TYPE_TAG_OFFSET] > 1 || ctx.pool.data[ACTIVE_FLAG_OFFSET] > 1 {
        return Err(Error::Anchor(ErrorCode::AccountDidNotDeserialize));
    }
    check_signer(&ctx.authority)?;
    check_seeds(&ctx.pool.key, &seed_list1(&POOL_SEED), &ID)?;
    let authority = ctx.authority.key;
    if !bytes_eq_key(&ctx.pool.data, AUTHORITY_OFFSET, &authority) {
        return Err(Error::Program(PoolError::NotAuthority));
    }
    let liquidity = read_u64_le(&ctx.pool.data, LIQUIDITY_OFFSET);
    if liquidity < amount {
        return Err(Error::Program(PoolError::InsufficientLiquidity));
    }
    if ctx.pool.data[TYPE_TAG_OFFSET] != 0 {
        return Err(Error::Program(PoolError::WrongAccountType));
    }
    write_u64_le(&mut ctx.pool.data, LIQUIDITY_OFFSET, liquidity - amount);
    ctx.pool.lamports = ctx.pool.lamports - amount;
    ctx.recipient.lamports = ctx.recipient.lamports + amount;
    Ok(AdminWithdrawal { pool: ctx.pool.key, authority: ctx.authority.key, amount })
}

/// The error `admin_withdraw_manual_validation` fails with, if any: the
/// authority must sign; the account must hold a pool's 50 bytes and start with
/// the pool discriminator, carry the pool tag at byte 8 and belong to this
/// program; its fields, read after the discriminator, must be valid, name the
/// authority, hold at least `amount` and carry the pool tag.
pub open spec fn manual_withdraw_error(ctx: AdminWithdrawManual, amount: u64) -> Option<Error<PoolError>> {
    let data = ctx.pool.data@;
    if !ctx.authority.is_signer {
        Some(Error::Anchor(ErrorCode::AccountNotSigner))
    } else if data.len() < 50 || data.subrange(0, 8) != POOL_DISCRIMINATOR@ {
        Some(Error::Program(PoolError::InvalidDiscriminator))
    } else if data[TYPE_TAG_OFFSET as int] != 0 {
        Some(Error::Program(PoolError::WrongAccountType))
    } else if ctx.pool.owner@ != ID@ {
        Some(Error::Program(PoolError::WrongProgramOwner))
    } else if data[ACTIVE_FLAG_OFFSET as int] > 1 {
        Some(Error::Anchor(ErrorCode::AccountDidNotDeserialize))
    } else if bytes_at(data, AUTHORITY_OFFSET as int, 32) != ctx.authority.key@ {
        Some(Error::Program(PoolError::NotAuthority))
    } else if le_u64_at(data, LIQUIDITY_OFFSET as int) < amount {
        Some(Error::Program(PoolError::InsufficientLiquidity))
    } else {
        None
    }
}

/// Pays `amount` lamports from the pool to the recipient after checking the
/// pool's bytes by hand, and lowers the recorded liquidity by `amount`, as
/// `admin_withdraw` does.
pub fn admin_withdraw_manual_validation(ctx: &mut AdminWithdrawManual, amount: u64) -> (r: Result<AdminWithdrawal, Error<PoolError>>)
    requires
        manual_withdraw_error(*old(ctx), amount) is None ==> {
            &&& old(ctx).pool.lamports >= amount
            &&& old(ctx).recipient.lamports + amount <= u64::MAX
        },
    ensures
        match manual_withdraw_error(*old(ctx), amount) {
            Some(e) => r == Err::<AdminWithdrawal, Error<PoolError>>(e) && *final(ctx) == *old(ctx),
            None => {
                let data = old(ctx).pool.data@;
                &&& r == Ok::<AdminWithdrawal, Error<PoolError>>(AdminWithdrawal {
                    pool: old(ctx).pool.key, authority: old(ctx).authority.key, amount })
                &&& account_is(
                    final(ctx).pool,
                    old(ctx).pool,
                    (old(ctx).pool.lamports - amount) as u64,
                    put_u64(data, LIQUIDITY_OFFSET as int, (le_u64_at(data, LIQUIDITY_OFFSET as int) - amount) as u64),
                )
                &&& account_is(final(ctx).recipient, old(ctx).recipient, (old(ctx).recipient.lamports + amount) as u64, old(ctx).recipient.data@)
                &&& final(ctx).authority == old(ctx).authority
            },
        },
{
    check_signer(&ctx.authority)?;
    if ctx.pool.data.len() < 50 || !crate::bytes::bytes_eq_at(&ctx.pool.data, 0, &POOL_DISCRIMINATOR) {
        return Err(Error::Program(PoolError::InvalidDiscriminator));
    }
    if ctx.pool.data[TYPE_TAG_OFFSET] != 0 {
        return Err(Error::Program(PoolError::WrongAccountType));
    }
    if !crate::bytes::keys_eq(&ctx.pool.owner, &ID) {
        return Err(Error::Program(PoolError::WrongProgramOwner));
    }
    if ctx.pool.data[ACTIVE_FLAG_OFFSET] > 1 {
        return Err(Error::Anchor(ErrorCode::AccountDidNotDeserialize));
    }
    let authority = ctx.authority.key;
    if !bytes_eq_key(&ctx.pool.data, AUTHORITY_OFFSET, &authority) {
        return Err(Error::Program(PoolError::NotAuthority));
    }
    let liquidity = read_u64_le(&ctx.pool.data, LIQUIDITY_OFFSET);
    if liquidity < amount {
        return Err(Error::Program(PoolError::InsufficientLiquidity));
    }
    write_u64_le(&mut ctx.pool.data, LIQUIDITY_OFFSET, liquidity - amount);
    ctx.pool.lamports = ctx.pool.lamports - amount;
    ctx.recipient.lamports = ctx.recipient.lamports + amount;
    Ok(AdminWithdrawal { pool: ctx.pool.key, authority: ctx.authority.key, amount })
}

/// No account that starts with the user-vault discriminator passes
/// `admin_withdraw`: loading it as a pool fails.
pub proof fn user_vault_never_loads_as_pool(ctx: AdminWithdraw, amount: u64)
    requires
        ctx.pool.data@.len() >= 8,
        ctx.pool.data@.subrange(0, 8) == USER_VAULT_DISCRIMINATOR@,
    ensures
        admin_withdraw_error(ctx, amount) is Some,
        pool_load_error(ctx.pool) is Some,
{
    assert(ctx.pool.data@.subrange(0, 8)[0] != POOL_DISCRIMINATOR@[0]);
}

/// No account tagged as a user vault, and none that starts with the user-vault
/// discriminator, passes `admin_withdraw_manual_validation`.
pub proof fn user_vault_tag_refused_by_manual_validation(ctx: AdminWithdrawManual, amount: u64)
    requires
        ctx.pool.data@.len() > TYPE_TAG_OFFSET,
        ctx.pool.data@[TYPE_TAG_OFFSET as int] == 1
            || (ctx.pool.data@.len() >= 8 && ctx.pool.data@.subrange(0, 8) == USER_VAULT_DISCRIMINATOR@),
    ensures
        manual_withdraw_error(ctx, amount) is Some,
{
    if ctx.pool.data@.len() >= 8 && ctx.pool.data@.subrange(0, 8) == USER_VAULT_DISCRIMINATOR@ {
        assert(ctx.pool.data@.subrange(0, 8)[0] != POOL_DISCRIMINATOR@[0]);
    }
}

} // verus!
