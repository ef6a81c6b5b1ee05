use anchor_lang::prelude::Pubkey as SolPubkey;
use sealevel_checks::data_validation::anchor::{
    duplicate_account_fixed as dup_fixed, duplicate_account_vulnerable as dup_vulnerable, range_check_fixed as range_fixed,
    range_check_vulnerable as range_vulnerable, type_confusion_fixed as confusion_fixed,
    type_confusion_vulnerable as confusion_vulnerable,
};
use sealevel_checks::data_validation::pinocchio::{
    range_check_fixed as raw_range_fixed, range_check_vulnerable as raw_range_vulnerable,
};
use sealevel_checks::framework::{Account, Error, ErrorCode};
use sealevel_checks::runtime::{AccountInfo, ProgramError};

const ALICE: [u8; 32] = [11; 32];
const MALLORY: [u8; 32] = [12; 32];

fn info(key: [u8; 32], is_signer: bool, lamports: u64) -> AccountInfo {
    AccountInfo { key, owner: [0; 32], lamports, data: vec![], is_signer, is_writable: true, executable: false }
}

fn pda(seeds: &[&[u8]], program: [u8; 32]) -> [u8; 32] {
    SolPubkey::find_program_address(seeds, &SolPubkey::new_from_array(program)).0.to_bytes()
}

fn account_bytes(discriminator: [u8; 8], value: u64) -> Vec<u8> {
    let mut d = discriminator.to_vec();
    d.extend_from_slice(&value.to_le_bytes());
    d
}

fn program_account(key: [u8; 32], owner: [u8; 32], data: Vec<u8>) -> AccountInfo {
    AccountInfo { key, owner, lamports: 1_000_000, data, is_signer: false, is_writable: false, executable: false }
}

#[test]
fn confusion_fixed_admin_config_lets_its_admin_through() {
    let config = program_account([1; 32], confusion_fixed::ID, account_bytes(confusion_fixed::ADMIN_CONFIG_DISCRIMINATOR, ALICE[0] as u64));
    let ctx = confusion_fixed::AdminWithdraw { admin_config: config, authority: info(ALICE, true, 0) };
    assert_eq!(confusion_fixed::admin_withdraw(&ctx, 500), Ok(confusion_fixed::AdminWithdrawn { admin: ALICE, amount: 500 }));
}

#[test]
fn confusion_fixed_refuses_a_user_account() {
    let user = program_account([1; 32], confusion_fixed::ID, account_bytes(confusion_fixed::USER_DISCRIMINATOR, MALLORY[0] as u64));
    let ctx = confusion_fixed::AdminWithdraw { admin_config: user, authority: info(MALLORY, true, 0) };
    assert_eq!(confusion_fixed::admin_withdraw(&ctx, 500), Err(Error::Anchor(ErrorCode::AccountDiscriminatorMismatch)));
}

#[test]
fn confusion_fixed_loading_errors() {
    let auth = info(ALICE, true, 0);
    let wrong_owner = program_account([1; 32], [3; 32], account_bytes(confusion_fixed::ADMIN_CONFIG_DISCRIMINATOR, 11));
    let ctx = confusion_fixed::AdminWithdraw { admin_config: wrong_owner, authority: auth.clone() };
    assert_eq!(confusion_fixed::admin_withdraw(&ctx, 1), Err(Error::Anchor(ErrorCode::AccountOwnedByWrongProgram)));
    let short = program_account([1; 32], confusion_fixed::ID, vec![1, 2, 3]);
    let ctx = confusion_fixed::AdminWithdraw { admin_config: short, authority: auth.clone() };
    assert_eq!(confusion_fixed::admin_withdraw(&ctx, 1), Err(Error::Anchor(ErrorCode::AccountDiscriminatorNotFound)));
    let truncated = program_account([1; 32], confusion_fixed::ID, confusion_fixed::ADMIN_CONFIG_DISCRIMINATOR.to_vec());
    let ctx = confusion_fixed::AdminWithdraw { admin_config: truncated, authority: auth.clone() };
    assert_eq!(confusion_fixed::admin_withdraw(&ctx, 1), Err(Error::Anchor(ErrorCode::AccountDidNotDeserialize)));
    let mut missing = program_account([1; 32], [0; 32], vec![]);
    missing.lamports = 0;
    let ctx = confusion_fixed::AdminWithdraw { admin_config: missing, authority: auth };
    assert_eq!(confusion_fixed::admin_withdraw(&ctx, 1), Err(Error::Anchor(ErrorCode::AccountNotInitialized)));
}

#[test]
fn confusion_fixed_refuses_another_admin() {
    let config = program_account([1; 32], confusion_fixed::ID, account_bytes(confusion_fixed::ADMIN_CONFIG_DISCRIMINATOR, 99));
    let ctx = confusion_fixed::AdminWithdraw { admin_config: config, authority: info(ALICE, true, 0) };
    assert_eq!(confusion_fixed::admin_withdraw(&ctx, 1), Err(Error::Program(confusion_fixed::AdminError::NotAdmin)));
}

#[test]
fn confusion_vulnerable_lets_a_user_account_through() {
    let user = program_account([1; 32], confusion_vulnerable::ID, account_bytes(confusion_vulnerable::USER_DISCRIMINATOR, MALLORY[0] as u64));
    let ctx = confusion_vulnerable::AdminWithdraw { admin_config: user, authority: info(MALLORY, true, 0) };
    assert_eq!(
        confusion_vulnerable::admin_withdraw(&ctx, 500),
        Ok(confusion_vulnerable::AdminWithdrawn { admin: MALLORY, amount: 500 })
    );
}

#[test]
fn confusion_vulnerable_short_account_is_refused() {
    let short = program_account([1; 32], confusion_vulnerable::ID, vec![0; 15]);
    let ctx = confusion_vulnerable::AdminWithdraw { admin_config: short, authority: info(MALLORY, true, 0) };
    assert_eq!(confusion_vulnerable::admin_withdraw(&ctx, 1), Err(Error::Runtime(ProgramError::InvalidAccountData)));
}

#[test]
fn confusion_initializers_need_the_new_accounts_signature() {
    let ctx = confusion_fixed::InitializeUser { user: info([2; 32], false, 0), signer: info(ALICE, true, 10) };
    assert_eq!(confusion_fixed::initialize_user(&ctx, 5), Err(Error::Runtime(ProgramError::MissingRequiredSignature)));
    let ctx = confusion_fixed::InitializeUser { user: info([2; 32], true, 0), signer: info(ALICE, true, 10) };
    assert_eq!(
        confusion_fixed::initialize_user(&ctx, 5),
        Ok((confusion_fixed::User { id: 5 }, confusion_fixed::UserInitialized { user: [2; 32], id: 5 }))
    );
    let ctx = confusion_vulnerable::InitializeAdmin { admin_config: info([3; 32], true, 0), signer: info(ALICE, true, 10) };
    assert_eq!(
        confusion_vulnerable::initialize_admin(&ctx, 7),
        Ok((
            confusion_vulnerable::AdminConfig { admin_id: 7 },
            confusion_vulnerable::AdminConfigInitialized { config: [3; 32], admin_id: 7 }
        ))
    );
}

fn character_ctx_fixed(level: u8, health: u64) -> range_fixed::SetLevel {
    let key = pda(&[&range_fixed::CHAR_SEED, &ALICE], range_fixed::ID);
    range_fixed::SetLevel { character: Account { key, lamports: 1, data: range_fixed::Character { level, health } }, signer: info(ALICE, true, 0) }
}

#[test]
fn range_fixed_level_sets_health() {
    let mut ctx = character_ctx_fixed(0, 0);
    let key = ctx.character.key;
    assert_eq!(range_fixed::set_level(&mut ctx, 100), Ok(range_fixed::LevelSet { character: key, level: 100, health: 10_000 }));
    assert_eq!(ctx.character.data, range_fixed::Character { level: 100, health: 10_000 });
}

#[test]
fn range_fixed_refuses_levels_outside_one_to_a_hundred() {
    let mut ctx = character_ctx_fixed(5, 500);
    assert_eq!(range_fixed::set_level(&mut ctx, 255), Err(Error::Program(range_fixed::GameError::InvalidLevel)));
    assert_eq!(range_fixed::set_level(&mut ctx, 0), Err(Error::Program(range_fixed::GameError::InvalidLevel)));
    assert_eq!(ctx.character.data, range_fixed::Character { level: 5, health: 500 });
}

#[test]
fn range_fixed_refuses_another_players_character() {
    let mut ctx = character_ctx_fixed(5, 500);
    ctx.signer = info(MALLORY, true, 0);
    assert_eq!(range_fixed::set_level(&mut ctx, 10), Err(Error::Anchor(ErrorCode::ConstraintSeeds)));
}

#[test]
fn range_fixed_initialize_starts_at_level_zero() {
    let key = pda(&[&range_fixed::CHAR_SEED, &ALICE], range_fixed::ID);
    let ctx = range_fixed::Initialize { character: info(key, false, 0), signer: info(ALICE, true, 10) };
    assert_eq!(
        range_fixed::initialize(&ctx),
        Ok((range_fixed::Character { level: 0, health: 0 }, range_fixed::CharacterCreated { character: key, owner: ALICE }))
    );
}

#[test]
fn range_vulnerable_accepts_level_255() {
    let key = pda(&[&range_vulnerable::CHAR_SEED, &ALICE], range_vulnerable::ID);
    let mut ctx = range_vulnerable::SetLevel {
        character: Account { key, lamports: 1, data: range_vulnerable::Character { level: 1, health: 100 } },
        signer: info(ALICE, true, 0),
    };
    assert_eq!(
        range_vulnerable::set_level(&mut ctx, 255),
        Ok(range_vulnerable::LevelSet { character: key, level: 255, health: 25_500 })
    );
    assert_eq!(ctx.character.data, range_vulnerable::Character { level: 255, health: 25_500 });
}

fn wallets<W>(from: W, to: W, same: bool) -> ([u8; 32], [u8; 32], W, W) {
    (if same { [7; 32] } else { [8; 32] }, [7; 32], from, to)
}

#[test]
fn duplicate_fixed_moves_between_distinct_wallets() {
    let (fk, tk, f, t) = wallets(dup_fixed::Wallet { balance: 1000 }, dup_fixed::Wallet { balance: 1000 }, false);
    let mut ctx = dup_fixed::Transfer { from: Account { key: fk, lamports: 1, data: f }, to: Account { key: tk, lamports: 1, data: t } };
    assert_eq!(dup_fixed::transfer(&mut ctx, 100), Ok(dup_fixed::TransferExecuted { from: fk, to: tk, amount: 100 }));
    assert_eq!((ctx.from.data.balance, ctx.to.data.balance), (900, 1100));
}

#[test]
fn duplicate_fixed_refuses_a_self_transfer() {
    let (fk, tk, f, t) = wallets(dup_fixed::Wallet { balance: 1000 }, dup_fixed::Wallet { balance: 1000 }, true);
    let mut ctx = dup_fixed::Transfer { from: Account { key: fk, lamports: 1, data: f }, to: Account { key: tk, lamports: 1, data: t } };
    assert_eq!(dup_fixed::transfer(&mut ctx, 100), Err(Error::Program(dup_fixed::WalletError::DuplicateAccount)));
}

#[test]
fn duplicate_fixed_refuses_an_overdraft() {
    let (fk, tk, f, t) = wallets(dup_fixed::Wallet { balance: 10 }, dup_fixed::Wallet { balance: 1000 }, false);
    let mut ctx = dup_fixed::Transfer { from: Account { key: fk, lamports: 1, data: f }, to: Account { key: tk, lamports: 1, data: t } };
    assert_eq!(dup_fixed::transfer(&mut ctx, 100), Err(Error::Program(dup_fixed::WalletError::InsufficientFunds)));
}

#[test]
fn duplicate_vulnerable_self_transfer_creates_money() {
    let (fk, tk, f, t) = wallets(dup_vulnerable::Wallet { balance: 1000 }, dup_vulnerable::Wallet { balance: 1000 }, true);
    let mut ctx = dup_vulnerable::Transfer { from: Account { key: fk, lamports: 1, data: f }, to: Account { key: tk, lamports: 1, data: t } };
    assert_eq!(dup_vulnerable::transfer(&mut ctx, 100), Ok(dup_vulnerable::TransferExecuted { from: fk, to: tk, amount: 100 }));
    // both copies are stored back to the same account, `to` last
    assert_eq!((ctx.from.data.balance, ctx.to.data.balance), (900, 1100));
}

#[test]
fn duplicate_initialize_starts_at_a_thousand() {
    let ctx = dup_fixed::Initialize { wallet: info([9; 32], true, 0), signer: info(ALICE, true, 10) };
    assert_eq!(
        dup_fixed::initialize(&ctx),
        Ok((dup_fixed::Wallet { balance: 1000 }, dup_fixed::WalletCreated { wallet: [9; 32], owner: ALICE, balance: 1000 }))
    );
}

fn config(len: usize) -> AccountInfo {
    AccountInfo { data: vec![0; len], ..info([4; 32], false, 1) }
}

fn fee_data(fee: u16) -> Vec<u8> {
    let mut d = vec![raw_range_fixed::SET_FEE];
    d.extend_from_slice(&fee.to_le_bytes());
    d
}

fn multiplier_data(m: u64) -> Vec<u8> {
    let mut d = vec![raw_range_fixed::SET_MULTIPLIER];
    d.extend_from_slice(&m.to_le_bytes());
    d
}

#[test]
fn raw_range_fixed_stores_a_fee_within_bounds() {
    let mut accounts = vec![config(10), info(ALICE, true, 1)];
    assert_eq!(raw_range_fixed::process_instruction(&[1; 32], &mut accounts, &fee_data(1000)), Ok(()));
    assert_eq!(accounts[0].data[0..2], 1000u16.to_le_bytes());
    assert_eq!(raw_range_fixed::process_instruction(&[1; 32], &mut accounts, &fee_data(1001)), Err(ProgramError::InvalidArgument));
    assert_eq!(accounts[0].data[0..2], 1000u16.to_le_bytes());
}

#[test]
fn raw_range_fixed_bounds_the_multiplier() {
    let mut accounts = vec![config(10), info(ALICE, true, 1)];
    assert_eq!(raw_range_fixed::process_instruction(&[1; 32], &mut accounts, &multiplier_data(0)), Err(ProgramError::InvalidArgument));
    assert_eq!(
        raw_range_fixed::process_instruction(&[1; 32], &mut accounts, &multiplier_data(1_000_001)),
        Err(ProgramError::InvalidArgument)
    );
    assert_eq!(raw_range_fixed::process_instruction(&[1; 32], &mut accounts, &multiplier_data(1_000_000)), Ok(()));
    assert_eq!(accounts[0].data[2..10], 1_000_000u64.to_le_bytes());
}

#[test]
fn raw_range_fixed_short_data_and_signature() {
    let mut accounts = vec![config(10), info(ALICE, false, 1)];
    assert_eq!(raw_range_fixed::process_instruction(&[1; 32], &mut accounts, &[0, 1]), Err(ProgramError::InvalidInstructionData));
    assert_eq!(raw_range_fixed::process_instruction(&[1; 32], &mut accounts, &fee_data(1)), Err(ProgramError::MissingRequiredSignature));
}

#[test]
fn raw_range_vulnerable_stores_any_fee() {
    let mut accounts = vec![config(10), info(ALICE, true, 1)];
    assert_eq!(raw_range_vulnerable::process_instruction(&[1; 32], &mut accounts, &fee_data(10_000)), Ok(()));
    assert_eq!(accounts[0].data[0..2], 10_000u16.to_le_bytes());
    assert_eq!(raw_range_vulnerable::process_instruction(&[1; 32], &mut accounts, &multiplier_data(0)), Ok(()));
    assert_eq!(accounts[0].data[2..10], 0u64.to_le_bytes());
}
