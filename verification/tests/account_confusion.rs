use anchor_lang::prelude::Pubkey as SolPubkey;
use sealevel_checks::account_confusion::anchor::{pool_fixed, pool_vulnerable};
use sealevel_checks::account_confusion::pinocchio::{
    type_confusion_fixed as raw_fixed, type_confusion_vulnerable as raw_vulnerable,
};
use sealevel_checks::framework::{Account, Error, ErrorCode, SystemTransfer, SYSTEM_PROGRAM_ID};
use sealevel_checks::runtime::{AccountInfo, ProgramError};

const ADMIN: [u8; 32] = [11; 32];
const MALLORY: [u8; 32] = [12; 32];
const RECIPIENT: [u8; 32] = [13; 32];

fn info(key: [u8; 32], is_signer: bool, lamports: u64) -> AccountInfo {
    AccountInfo { key, owner: [0; 32], lamports, data: vec![], is_signer, is_writable: true, executable: false }
}

fn fixed_pool_key() -> [u8; 32] {
    SolPubkey::find_program_address(&[&pool_fixed::POOL_SEED], &SolPubkey::new_from_array(pool_fixed::ID)).0.to_bytes()
}

/// Pool (or vault) bytes of the fixed program: discriminator, type tag, key,
/// amount, flag.
fn fixed_bytes(discriminator: [u8; 8], tag: u8, key: [u8; 32], amount: u64, flag: u8) -> Vec<u8> {
    let mut d = discriminator.to_vec();
    d.push(tag);
    d.extend_from_slice(&key);
    d.extend_from_slice(&amount.to_le_bytes());
    d.push(flag);
    d
}

fn fixed_withdraw(data: Vec<u8>, key: [u8; 32], signer: [u8; 32]) -> pool_fixed::AdminWithdraw {
    pool_fixed::AdminWithdraw {
        pool: AccountInfo { key, owner: pool_fixed::ID, lamports: 10_000, data, is_signer: false, is_writable: true, executable: false },
        authority: info(signer, true, 0),
        recipient: info(RECIPIENT, false, 0),
    }
}

#[test]
fn fixed_admin_withdraw_pays_and_lowers_liquidity() {
    let data = fixed_bytes(pool_fixed::POOL_DISCRIMINATOR, 0, ADMIN, 5_000, 1);
    let mut ctx = fixed_withdraw(data, fixed_pool_key(), ADMIN);
    let pool_key = ctx.pool.key;
    assert_eq!(
        pool_fixed::admin_withdraw(&mut ctx, 4_000),
        Ok(pool_fixed::AdminWithdrawal { pool: pool_key, authority: ADMIN, amount: 4_000 })
    );
    assert_eq!((ctx.pool.lamports, ctx.recipient.lamports), (6_000, 4_000));
    assert_eq!(ctx.pool.data[41..49], 1_000u64.to_le_bytes());
}

#[test]
fn fixed_admin_withdraw_refuses_a_user_vault() {
    let data = fixed_bytes(pool_fixed::USER_VAULT_DISCRIMINATOR, 1, MALLORY, 5_000, 1);
    let mut ctx = fixed_withdraw(data, fixed_pool_key(), MALLORY);
    assert_eq!(pool_fixed::admin_withdraw(&mut ctx, 4_000), Err(Error::Anchor(ErrorCode::AccountDiscriminatorMismatch)));
    assert_eq!(ctx.pool.lamports, 10_000);
}

#[test]
fn fixed_admin_withdraw_other_errors() {
    let data = fixed_bytes(pool_fixed::POOL_DISCRIMINATOR, 0, ADMIN, 5_000, 1);
    let mut ctx = fixed_withdraw(data.clone(), fixed_pool_key(), MALLORY);
    assert_eq!(pool_fixed::admin_withdraw(&mut ctx, 1), Err(Error::Program(pool_fixed::PoolError::NotAuthority)));
    let mut ctx = fixed_withdraw(data.clone(), fixed_pool_key(), ADMIN);
    assert_eq!(pool_fixed::admin_withdraw(&mut ctx, 5_001), Err(Error::Program(pool_fixed::PoolError::InsufficientLiquidity)));
    let mut ctx = fixed_withdraw(data.clone(), [70; 32], ADMIN);
    assert_eq!(pool_fixed::admin_withdraw(&mut ctx, 1), Err(Error::Anchor(ErrorCode::ConstraintSeeds)));
    let tagged_vault = fixed_bytes(pool_fixed::POOL_DISCRIMINATOR, 1, ADMIN, 5_000, 1);
    let mut ctx = fixed_withdraw(tagged_vault, fixed_pool_key(), ADMIN);
    assert_eq!(pool_fixed::admin_withdraw(&mut ctx, 1), Err(Error::Program(pool_fixed::PoolError::WrongAccountType)));
    let bad_flag = fixed_bytes(pool_fixed::POOL_DISCRIMINATOR, 0, ADMIN, 5_000, 2);
    let mut ctx = fixed_withdraw(bad_flag, fixed_pool_key(), ADMIN);
    assert_eq!(pool_fixed::admin_withdraw(&mut ctx, 1), Err(Error::Anchor(ErrorCode::AccountDidNotDeserialize)));
    let mut ctx = fixed_withdraw(data, fixed_pool_key(), ADMIN);
    ctx.authority.is_signer = false;
    assert_eq!(pool_fixed::admin_withdraw(&mut ctx, 1), Err(Error::Anchor(ErrorCode::AccountNotSigner)));
}

fn manual(data: Vec<u8>, owner: [u8; 32], signer: [u8; 32]) -> pool_fixed::AdminWithdrawManual {
    pool_fixed::AdminWithdrawManual {
        pool: AccountInfo { key: [71; 32], owner, lamports: 10_000, data, is_signer: false, is_writable: true, executable: false },
        authority: info(signer, true, 0),
        recipient: info(RECIPIENT, false, 0),
    }
}

#[test]
fn manual_validation_pays_from_a_genuine_pool_and_lowers_liquidity() {
    let pool = fixed_bytes(pool_fixed::POOL_DISCRIMINATOR, 0, ADMIN, 5_000, 1);
    let mut ctx = manual(pool, pool_fixed::ID, ADMIN);
    let pool_key = ctx.pool.key;
    assert_eq!(
        pool_fixed::admin_withdraw_manual_validation(&mut ctx, 4_000),
        Ok(pool_fixed::AdminWithdrawal { pool: pool_key, authority: ADMIN, amount: 4_000 })
    );
    assert_eq!((ctx.pool.lamports, ctx.recipient.lamports), (6_000, 4_000));
    assert_eq!(ctx.pool.data[41..49], 1_000u64.to_le_bytes());
}

#[test]
fn manual_validation_refuses_short_foreign_and_vault_accounts() {
    let mut ctx = manual(vec![0; 49], pool_fixed::ID, ADMIN);
    assert_eq!(pool_fixed::admin_withdraw_manual_validation(&mut ctx, 1), Err(Error::Program(pool_fixed::PoolError::InvalidDiscriminator)));
    // another account type's discriminator, even with the pool tag
    let vault = fixed_bytes(pool_fixed::USER_VAULT_DISCRIMINATOR, 0, MALLORY, 5_000, 1);
    let mut ctx = manual(vault, pool_fixed::ID, MALLORY);
    assert_eq!(pool_fixed::admin_withdraw_manual_validation(&mut ctx, 1), Err(Error::Program(pool_fixed::PoolError::InvalidDiscriminator)));
    let tagged = fixed_bytes(pool_fixed::POOL_DISCRIMINATOR, 1, MALLORY, 5_000, 1);
    let mut ctx = manual(tagged, pool_fixed::ID, MALLORY);
    assert_eq!(pool_fixed::admin_withdraw_manual_validation(&mut ctx, 1), Err(Error::Program(pool_fixed::PoolError::WrongAccountType)));
    let pool = fixed_bytes(pool_fixed::POOL_DISCRIMINATOR, 0, ADMIN, 5_000, 1);
    let mut ctx = manual(pool.clone(), [72; 32], ADMIN);
    assert_eq!(pool_fixed::admin_withdraw_manual_validation(&mut ctx, 1), Err(Error::Program(pool_fixed::PoolError::WrongProgramOwner)));
    let bad_flag = fixed_bytes(pool_fixed::POOL_DISCRIMINATOR, 0, ADMIN, 5_000, 2);
    let mut ctx = manual(bad_flag, pool_fixed::ID, ADMIN);
    assert_eq!(pool_fixed::admin_withdraw_manual_validation(&mut ctx, 1), Err(Error::Anchor(ErrorCode::AccountDidNotDeserialize)));
    let mut ctx = manual(pool.clone(), pool_fixed::ID, MALLORY);
    assert_eq!(pool_fixed::admin_withdraw_manual_validation(&mut ctx, 1), Err(Error::Program(pool_fixed::PoolError::NotAuthority)));
    let mut ctx = manual(pool, pool_fixed::ID, ADMIN);
    assert_eq!(
        pool_fixed::admin_withdraw_manual_validation(&mut ctx, 5_001),
        Err(Error::Program(pool_fixed::PoolError::InsufficientLiquidity))
    );
}

#[test]
fn fixed_deposit_records_and_returns_the_transfer() {
    let mut ctx = pool_fixed::Deposit {
        pool: Account {
            key: fixed_pool_key(),
            lamports: 1,
            data: pool_fixed::Pool { account_type: pool_fixed::AccountType::Pool, authority: ADMIN, total_liquidity: 10, is_active: true },
        },
        user_vault: Account {
            key: [73; 32],
            lamports: 1,
            data: pool_fixed::UserVault {
                account_type: pool_fixed::AccountType::UserVault,
                owner: MALLORY,
                deposited_amount: 0,
                is_initialized: true,
            },
        },
        depositor: info(MALLORY, true, 100),
        system_program: AccountInfo { executable: true, ..info(SYSTEM_PROGRAM_ID, false, 1) },
    };
    assert_eq!(
        pool_fixed::deposit(&mut ctx, 40),
        Ok((
            SystemTransfer { from: MALLORY, to: fixed_pool_key(), lamports: 40 },
            pool_fixed::Deposited { pool: fixed_pool_key(), vault: [73; 32], depositor: MALLORY, amount: 40 }
        ))
    );
    assert_eq!((ctx.pool.data.total_liquidity, ctx.user_vault.data.deposited_amount), (50, 40));
    ctx.pool.data.is_active = false;
    assert_eq!(pool_fixed::deposit(&mut ctx, 1), Err(Error::Program(pool_fixed::PoolError::PoolInactive)));
    ctx.pool.data.is_active = true;
    ctx.depositor = info(ADMIN, true, 100);
    assert_eq!(pool_fixed::deposit(&mut ctx, 1), Err(Error::Program(pool_fixed::PoolError::NotVaultOwner)));
}

#[test]
fn fixed_initializers_tag_their_accounts() {
    let ctx = pool_fixed::InitializePool { pool: info(fixed_pool_key(), false, 0), authority: info(ADMIN, true, 10) };
    assert_eq!(
        pool_fixed::initialize_pool(&ctx),
        Ok((
            pool_fixed::Pool { account_type: pool_fixed::AccountType::Pool, authority: ADMIN, total_liquidity: 0, is_active: true },
            pool_fixed::PoolInitialized { pool: fixed_pool_key(), authority: ADMIN }
        ))
    );
    let vault = SolPubkey::find_program_address(&[&pool_fixed::VAULT_SEED, &MALLORY], &SolPubkey::new_from_array(pool_fixed::ID)).0.to_bytes();
    let ctx = pool_fixed::CreateUserVault { user_vault: info(vault, false, 0), owner: info(MALLORY, true, 10) };
    let (created, event) = pool_fixed::create_user_vault(&ctx).unwrap();
    assert_eq!(created.account_type, pool_fixed::AccountType::UserVault);
    assert_eq!(event, pool_fixed::UserVaultCreated { vault, owner: MALLORY });
}

fn vulnerable_vault_bytes(owner: [u8; 32], deposited: u64) -> Vec<u8> {
    let mut d = pool_vulnerable::USER_VAULT_DISCRIMINATOR.to_vec();
    d.extend_from_slice(&owner);
    d.extend_from_slice(&deposited.to_le_bytes());
    d.push(1);
    d
}

#[test]
fn vulnerable_admin_withdraw_accepts_a_user_vault() {
    let mut ctx = pool_vulnerable::AdminWithdraw {
        pool: AccountInfo { data: vulnerable_vault_bytes(MALLORY, 1_000_000), ..info([74; 32], false, 10_000) },
        authority: info(MALLORY, true, 0),
        recipient: info(MALLORY, false, 0),
    };
    assert_eq!(
        pool_vulnerable::admin_withdraw(&mut ctx, 10_000),
        Ok(pool_vulnerable::AdminWithdrawal { pool: [74; 32], authority: MALLORY, amount: 10_000 })
    );
    assert_eq!((ctx.pool.lamports, ctx.recipient.lamports), (0, 10_000));
}

#[test]
fn vulnerable_admin_withdraw_errors() {
    let mut ctx = pool_vulnerable::AdminWithdraw {
        pool: AccountInfo { data: vec![0; 48], ..info([74; 32], false, 10_000) },
        authority: info(MALLORY, true, 0),
        recipient: info(MALLORY, false, 0),
    };
    assert_eq!(pool_vulnerable::admin_withdraw(&mut ctx, 1), Err(Error::Program(pool_vulnerable::PoolError::InvalidAccountData)));
    ctx.pool.data = vulnerable_vault_bytes(ADMIN, 10);
    assert_eq!(pool_vulnerable::admin_withdraw(&mut ctx, 1), Err(Error::Program(pool_vulnerable::PoolError::NotAuthority)));
    ctx.pool.data = vulnerable_vault_bytes(MALLORY, 10);
    assert_eq!(pool_vulnerable::admin_withdraw(&mut ctx, 11), Err(Error::Program(pool_vulnerable::PoolError::InsufficientLiquidity)));
}

fn raw_account(tag: u8, owner: [u8; 32], balance: u64) -> AccountInfo {
    let mut data = vec![tag];
    data.extend_from_slice(&owner);
    data.extend_from_slice(&balance.to_le_bytes());
    AccountInfo { data, ..info([75; 32], false, 1) }
}

fn withdraw_data(amount: u64) -> Vec<u8> {
    let mut d = vec![raw_fixed::WITHDRAW];
    d.extend_from_slice(&amount.to_le_bytes());
    d
}

#[test]
fn raw_fixed_withdraws_only_from_vaults() {
    let accounts = vec![raw_account(raw_fixed::VAULT_DISCRIMINATOR, MALLORY, 100), info(MALLORY, true, 0)];
    assert_eq!(raw_fixed::process_instruction(&[1; 32], &accounts, &withdraw_data(100)), Ok(()));
    assert_eq!(raw_fixed::process_instruction(&[1; 32], &accounts, &withdraw_data(101)), Err(ProgramError::InsufficientFunds));
    let accounts = vec![raw_account(raw_fixed::USER_DISCRIMINATOR, MALLORY, 100), info(MALLORY, true, 0)];
    assert_eq!(raw_fixed::process_instruction(&[1; 32], &accounts, &withdraw_data(1)), Err(ProgramError::InvalidAccountData));
    assert_eq!(raw_fixed::process_instruction(&[1; 32], &accounts, &withdraw_data(1)[..8]), Err(ProgramError::InvalidInstructionData));
}

#[test]
fn raw_vulnerable_withdraws_from_a_user_account() {
    let accounts = vec![raw_account(raw_vulnerable::USER_DISCRIMINATOR, MALLORY, 100), info(MALLORY, true, 0)];
    assert_eq!(raw_vulnerable::process_instruction(&[1; 32], &accounts, &withdraw_data(100)), Ok(()));
    let accounts = vec![raw_account(raw_vulnerable::USER_DISCRIMINATOR, ADMIN, 100), info(MALLORY, true, 0)];
    assert_eq!(raw_vulnerable::process_instruction(&[1; 32], &accounts, &withdraw_data(1)), Err(ProgramError::InvalidAccountData));
}
