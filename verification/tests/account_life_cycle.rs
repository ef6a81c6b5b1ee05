use anchor_lang::prelude::Pubkey as SolPubkey;
use sealevel_checks::account_life_cycle::anchor::{
    account_resurrection_fixed as resurrection_fixed, account_resurrection_vulnerable as resurrection_vulnerable,
    reinitialization_fixed as reinit_fixed, reinitialization_vulnerable as reinit_vulnerable,
};
use sealevel_checks::account_life_cycle::pinocchio::{
    reinitialization_fixed as raw_reinit_fixed, reinitialization_vulnerable as raw_reinit_vulnerable,
};
use sealevel_checks::framework::{Account, Error, ErrorCode, SystemTransfer};
use sealevel_checks::runtime::{AccountInfo, ProgramError};

const ALICE: [u8; 32] = [11; 32];
const MALLORY: [u8; 32] = [12; 32];
const SYSTEM: [u8; 32] = [0; 32];
const PROGRAM: [u8; 32] = [41; 32];

fn info(key: [u8; 32], is_signer: bool, lamports: u64) -> AccountInfo {
    AccountInfo { key, owner: SYSTEM, lamports, data: vec![], is_signer, is_writable: true, executable: false }
}

fn pda(seeds: &[&[u8]], program: [u8; 32]) -> [u8; 32] {
    SolPubkey::find_program_address(seeds, &SolPubkey::new_from_array(program)).0.to_bytes()
}

#[test]
fn reinit_fixed_initialize_refuses_an_existing_config() {
    let config = pda(&[&reinit_fixed::CONFIG_SEED], reinit_fixed::ID);
    let mut existing = info(config, false, 1);
    existing.owner = reinit_fixed::ID;
    existing.data = vec![0; 49];
    let ctx = reinit_fixed::Initialize { config: existing, payer: info(MALLORY, true, 10) };
    assert_eq!(reinit_fixed::initialize(&ctx, 5), Err(Error::Runtime(ProgramError::Custom(0))));
}

#[test]
fn reinit_fixed_initialize_creates_a_fresh_config() {
    let config = pda(&[&reinit_fixed::CONFIG_SEED], reinit_fixed::ID);
    let ctx = reinit_fixed::Initialize { config: info(config, false, 0), payer: info(ALICE, true, 10) };
    assert_eq!(reinit_fixed::initialize(&ctx, 5), Ok(reinit_fixed::Config { owner: ALICE, value: 5, is_initialized: true }));
}

#[test]
fn reinit_fixed_safe_path_keeps_the_first_owner() {
    let config = pda(&[&reinit_fixed::CONFIG_SAFE_SEED], reinit_fixed::ID);
    let mut ctx = reinit_fixed::InitializeSafe {
        config: Account { key: config, lamports: 10, data: None },
        payer: info(ALICE, true, 10),
    };
    assert_eq!(reinit_fixed::initialize_safe(&mut ctx, 1), Ok(()));
    assert_eq!(ctx.config.data, Some(reinit_fixed::Config { owner: ALICE, value: 1, is_initialized: true }));
    ctx.payer = info(MALLORY, true, 10);
    assert_eq!(
        reinit_fixed::initialize_safe(&mut ctx, 2),
        Err(Error::Program(reinit_fixed::ConfigError::AlreadyInitialized))
    );
    assert_eq!(ctx.config.data, Some(reinit_fixed::Config { owner: ALICE, value: 1, is_initialized: true }));
    ctx.payer = info(ALICE, true, 10);
    assert_eq!(reinit_fixed::initialize_safe(&mut ctx, 3), Ok(()));
    assert_eq!(ctx.config.data, Some(reinit_fixed::Config { owner: ALICE, value: 3, is_initialized: true }));
}

#[test]
fn reinit_fixed_update_needs_the_owner() {
    let mut ctx = reinit_fixed::UpdateValue {
        config: Account { key: [1; 32], lamports: 1, data: reinit_fixed::Config { owner: ALICE, value: 1, is_initialized: true } },
        owner: info(MALLORY, true, 0),
    };
    assert_eq!(reinit_fixed::update_value(&mut ctx, 9), Err(Error::Program(reinit_fixed::ConfigError::NotOwner)));
    ctx.owner = info(ALICE, true, 0);
    assert_eq!(reinit_fixed::update_value(&mut ctx, 9), Ok(()));
    assert_eq!(ctx.config.data.value, 9);
}

#[test]
fn reinit_vulnerable_anyone_takes_the_config_over() {
    let config = pda(&[&reinit_vulnerable::CONFIG_SEED], reinit_vulnerable::ID);
    let mut ctx = reinit_vulnerable::InitializeOrUpdate {
        config: Account { key: config, lamports: 10, data: Some(reinit_vulnerable::Config { owner: ALICE, value: 1 }) },
        payer: info(MALLORY, true, 10),
    };
    assert_eq!(reinit_vulnerable::initialize_or_update(&mut ctx, 2), Ok(()));
    assert_eq!(ctx.config.data, Some(reinit_vulnerable::Config { owner: MALLORY, value: 2 }));
}

#[test]
fn reinit_vulnerable_withdraw_keeps_rent() {
    let mut ctx = reinit_vulnerable::Withdraw {
        config: Account { key: [1; 32], lamports: 5_000, data: reinit_vulnerable::Config { owner: MALLORY, value: 2 } },
        owner: info(MALLORY, true, 0),
    };
    assert_eq!(reinit_vulnerable::withdraw(&mut ctx, 1_000), Ok(()));
    assert_eq!((ctx.config.lamports, ctx.owner.lamports), (1_000, 4_000));
}

#[test]
fn resurrection_fixed_create_returns_the_funding_transfer() {
    let escrow = pda(&[&resurrection_fixed::ESCROW_SEED, &ALICE], resurrection_fixed::ID);
    let ctx = resurrection_fixed::CreateEscrow { escrow: info(escrow, false, 0), owner: info(ALICE, true, 100) };
    assert_eq!(
        resurrection_fixed::create_escrow(&ctx, 70),
        Ok((
            resurrection_fixed::Escrow { owner: ALICE, amount: 70, claimed: false },
            SystemTransfer { from: ALICE, to: escrow, lamports: 70 }
        ))
    );
}

fn escrow_account(lamports: u64, owner: [u8; 32], claimed: bool) -> AccountInfo {
    let data = resurrection_fixed::encode_escrow(&resurrection_fixed::Escrow { owner, amount: 70, claimed });
    AccountInfo { key: [2; 32], owner: resurrection_fixed::ID, lamports, data, is_signer: false, is_writable: true, executable: false }
}

#[test]
fn resurrection_fixed_claims_only_once() {
    let mut ctx = resurrection_fixed::Claim { escrow: escrow_account(1_070, ALICE, false), owner: info(ALICE, true, 0) };
    assert_eq!(resurrection_fixed::claim(&mut ctx, 1_000), Ok(()));
    assert_eq!((ctx.escrow.lamports, ctx.owner.lamports, ctx.escrow.data[48]), (1_000, 70, 1));
    assert_eq!(
        resurrection_fixed::claim(&mut ctx, 1_000),
        Err(Error::Program(resurrection_fixed::EscrowError::AlreadyClaimed))
    );
}

#[test]
fn resurrection_fixed_close_leaves_no_escrow_data() {
    let mut ctx = resurrection_fixed::CloseEscrow { escrow: escrow_account(1_000, ALICE, true), owner: info(ALICE, true, 5) };
    assert_eq!(resurrection_fixed::close_escrow(&mut ctx), Ok(()));
    assert_eq!((ctx.escrow.lamports, ctx.owner.lamports), (0, 1_005));
    assert!(ctx.escrow.data.is_empty());
    assert_eq!(ctx.escrow.owner, [0; 32]);
}

#[test]
fn resurrection_fixed_refunded_escrow_does_not_come_back() {
    let mut close = resurrection_fixed::CloseEscrow { escrow: escrow_account(1_000, ALICE, false), owner: info(ALICE, true, 5) };
    assert_eq!(resurrection_fixed::close_escrow(&mut close), Ok(()));
    // someone sends lamports back to the closed address
    let mut refunded = close.escrow.clone();
    refunded.lamports = 2_000;
    let mut ctx = resurrection_fixed::Claim { escrow: refunded, owner: info(ALICE, true, 0) };
    assert_eq!(resurrection_fixed::claim(&mut ctx, 1_000), Err(Error::Anchor(ErrorCode::AccountOwnedByWrongProgram)));
    assert_eq!(ctx.escrow.lamports, 2_000);
    let mut empty = resurrection_fixed::Claim { escrow: close.escrow.clone(), owner: info(ALICE, true, 0) };
    assert_eq!(resurrection_fixed::claim(&mut empty, 1_000), Err(Error::Anchor(ErrorCode::AccountNotInitialized)));
}

#[test]
fn resurrection_fixed_close_by_another_is_refused() {
    let mut ctx = resurrection_fixed::CloseEscrow { escrow: escrow_account(1_000, ALICE, true), owner: info(MALLORY, true, 5) };
    assert_eq!(resurrection_fixed::close_escrow(&mut ctx), Err(Error::Anchor(ErrorCode::ConstraintHasOne)));
}

#[test]
fn resurrection_vulnerable_close_keeps_the_data() {
    let data = resurrection_vulnerable::Escrow { owner: ALICE, amount: 70, claimed: true };
    let mut ctx = resurrection_vulnerable::CloseEscrow {
        escrow: Account { key: [2; 32], lamports: 1_000, data },
        owner: info(ALICE, true, 5),
    };
    assert_eq!(resurrection_vulnerable::close_escrow(&mut ctx), Ok(Some(data)));
    assert_eq!(ctx.escrow.data, data);
    assert_eq!(ctx.escrow.lamports, 0);
}

fn raw_config(key: [u8; 32], data: Vec<u8>, lamports: u64) -> AccountInfo {
    AccountInfo { key, owner: PROGRAM, lamports, data, is_signer: false, is_writable: true, executable: false }
}

fn value_data(tag: u8, value: u64) -> Vec<u8> {
    let mut d = vec![tag];
    d.extend_from_slice(&value.to_le_bytes());
    d
}

#[test]
fn raw_reinit_fixed_second_initialize_by_another_is_refused() {
    let config = pda(&[&raw_reinit_fixed::CONFIG_SEED], PROGRAM);
    let mut accounts = vec![raw_config(config, vec![0; 41], 0), info(ALICE, true, 10), info(SYSTEM, false, 1)];
    assert_eq!(raw_reinit_fixed::process_instruction(&PROGRAM, &mut accounts, &value_data(0, 7)), Ok(()));
    assert_eq!(accounts[0].data[0], 1);
    assert_eq!(accounts[0].data[1..33], ALICE);
    assert_eq!(accounts[0].data[33..41], 7u64.to_le_bytes());
    accounts[1] = info(MALLORY, true, 10);
    assert_eq!(
        raw_reinit_fixed::process_instruction(&PROGRAM, &mut accounts, &value_data(0, 8)),
        Err(ProgramError::AccountAlreadyInitialized)
    );
    assert_eq!(accounts[0].data[1..33], ALICE);
}

#[test]
fn raw_reinit_fixed_update_of_an_uninitialized_config_is_refused() {
    let mut accounts = vec![raw_config([3; 32], vec![0; 41], 0), info(ALICE, true, 10)];
    assert_eq!(
        raw_reinit_fixed::process_instruction(&PROGRAM, &mut accounts, &value_data(1, 8)),
        Err(ProgramError::UninitializedAccount)
    );
}

#[test]
fn raw_reinit_fixed_withdraw_pays_above_rent() {
    let mut data = vec![1u8];
    data.extend_from_slice(&ALICE);
    data.extend_from_slice(&0u64.to_le_bytes());
    let mut accounts = vec![raw_config([3; 32], data, 1_000_000), info(ALICE, true, 0)];
    assert_eq!(raw_reinit_fixed::process_instruction(&PROGRAM, &mut accounts, &[2]), Ok(()));
    assert_eq!(accounts[0].lamports, raw_reinit_fixed::RENT_EXEMPT);
    assert_eq!(accounts[1].lamports, 1_000_000 - raw_reinit_fixed::RENT_EXEMPT);
}

#[test]
fn raw_reinit_vulnerable_second_initialize_takes_over() {
    let config = pda(&[&raw_reinit_vulnerable::CONFIG_SEED], PROGRAM);
    let mut accounts = vec![raw_config(config, vec![0; 40], 0), info(ALICE, true, 10), info(SYSTEM, false, 1)];
    assert_eq!(raw_reinit_vulnerable::process_instruction(&PROGRAM, &mut accounts, &value_data(0, 7)), Ok(()));
    accounts[1] = info(MALLORY, true, 10);
    assert_eq!(raw_reinit_vulnerable::process_instruction(&PROGRAM, &mut accounts, &value_data(0, 8)), Ok(()));
    assert_eq!(accounts[0].data[0..32], MALLORY);
    assert_eq!(accounts[0].data[32..40], 8u64.to_le_bytes());
}

#[test]
fn raw_reinit_vulnerable_initialize_away_from_the_address_is_refused() {
    let mut accounts = vec![raw_config([4; 32], vec![0; 40], 0), info(ALICE, true, 10), info(SYSTEM, false, 1)];
    assert_eq!(
        raw_reinit_vulnerable::process_instruction(&PROGRAM, &mut accounts, &value_data(0, 7)),
        Err(ProgramError::InvalidSeeds)
    );
}
