use anchor_lang::prelude::Pubkey as SolPubkey;
use sealevel_checks::access_control::anchor::{
    missing_owner_fixed as owner_fixed, missing_owner_vulnerable as owner_vulnerable,
    missing_signer_fixed as signer_fixed, missing_signer_vulnerable as signer_vulnerable,
    pda_substitution_fixed as pda_fixed, pda_substitution_vulnerable as pda_vulnerable,
};
use sealevel_checks::access_control::pinocchio::{
    missing_signer_fixed as raw_fixed, missing_signer_vulnerable as raw_vulnerable,
};
use sealevel_checks::framework::{Account, Error, ErrorCode, SystemTransfer};
use sealevel_checks::runtime::{AccountInfo, ProgramError};

const ALICE: [u8; 32] = [11; 32];
const MALLORY: [u8; 32] = [12; 32];
const SYSTEM: [u8; 32] = [0; 32];

fn info(key: [u8; 32], is_signer: bool, lamports: u64) -> AccountInfo {
    AccountInfo { key, owner: SYSTEM, lamports, data: vec![], is_signer, is_writable: true, executable: false }
}

fn pda(seeds: &[&[u8]], program: [u8; 32]) -> ([u8; 32], u8) {
    let (k, b) = SolPubkey::find_program_address(seeds, &SolPubkey::new_from_array(program));
    (k.to_bytes(), b)
}

fn le(v: u64) -> [u8; 8] {
    v.to_le_bytes()
}

#[test]
fn signer_fixed_initialize_creates_the_authoritys_vault() {
    let (vault, _) = pda(&[&signer_fixed::VAULT_SEED, &ALICE], signer_fixed::ID);
    let ctx = signer_fixed::Initialize { vault: info(vault, false, 0), authority: info(ALICE, true, 10) };
    assert_eq!(signer_fixed::initialize(&ctx), Ok(signer_fixed::Vault { authority: ALICE, balance: 0 }));
}

#[test]
fn signer_fixed_initialize_refuses_a_foreign_address() {
    let ctx = signer_fixed::Initialize { vault: info([99; 32], false, 0), authority: info(ALICE, true, 10) };
    assert_eq!(signer_fixed::initialize(&ctx), Err(Error::Anchor(ErrorCode::ConstraintSeeds)));
}

#[test]
fn signer_fixed_initialize_refuses_an_account_in_use() {
    let (vault, _) = pda(&[&signer_fixed::VAULT_SEED, &ALICE], signer_fixed::ID);
    let mut v = info(vault, false, 0);
    v.data = vec![1];
    let ctx = signer_fixed::Initialize { vault: v, authority: info(ALICE, true, 10) };
    assert_eq!(signer_fixed::initialize(&ctx), Err(Error::Runtime(ProgramError::Custom(0))));
}

#[test]
fn signer_fixed_deposit_returns_the_transfer() {
    let mut ctx = signer_fixed::Deposit {
        vault: Account { key: [20; 32], lamports: 5, data: signer_fixed::Vault { authority: ALICE, balance: 7 } },
        depositor: info(MALLORY, true, 100),
    };
    let r = signer_fixed::deposit(&mut ctx, 30);
    assert_eq!(r, Ok(SystemTransfer { from: MALLORY, to: [20; 32], lamports: 30 }));
    assert_eq!(ctx.vault.data.balance, 37);
}

#[test]
fn signer_fixed_deposit_refuses_overflow() {
    let mut ctx = signer_fixed::Deposit {
        vault: Account { key: [20; 32], lamports: 5, data: signer_fixed::Vault { authority: ALICE, balance: u64::MAX } },
        depositor: info(MALLORY, true, 100),
    };
    assert_eq!(signer_fixed::deposit(&mut ctx, 1), Err(Error::Program(signer_fixed::VaultError::Overflow)));
    assert_eq!(ctx.vault.data.balance, u64::MAX);
}

fn signer_fixed_withdraw_ctx(signed: bool, who: [u8; 32]) -> signer_fixed::Withdraw {
    signer_fixed::Withdraw {
        vault: Account { key: [20; 32], lamports: 500, data: signer_fixed::Vault { authority: ALICE, balance: 300 } },
        authority: info(who, signed, 10),
    }
}

#[test]
fn signer_fixed_withdraw_pays_the_signing_authority() {
    let mut ctx = signer_fixed_withdraw_ctx(true, ALICE);
    assert_eq!(signer_fixed::withdraw(&mut ctx, 100), Ok(()));
    assert_eq!((ctx.vault.data.balance, ctx.vault.lamports, ctx.authority.lamports), (200, 400, 110));
}

#[test]
fn signer_fixed_withdraw_without_signature_is_refused() {
    let mut ctx = signer_fixed_withdraw_ctx(false, ALICE);
    assert_eq!(signer_fixed::withdraw(&mut ctx, 100), Err(Error::Anchor(ErrorCode::AccountNotSigner)));
    assert_eq!(ctx.vault.lamports, 500);
}

#[test]
fn signer_fixed_withdraw_by_another_signer_is_refused() {
    let mut ctx = signer_fixed_withdraw_ctx(true, MALLORY);
    assert_eq!(signer_fixed::withdraw(&mut ctx, 100), Err(Error::Program(signer_fixed::VaultError::Unauthorized)));
}

#[test]
fn signer_fixed_withdraw_beyond_balance_is_refused() {
    let mut ctx = signer_fixed_withdraw_ctx(true, ALICE);
    assert_eq!(signer_fixed::withdraw(&mut ctx, 301), Err(Error::Program(signer_fixed::VaultError::InsufficientFunds)));
}

#[test]
fn signer_vulnerable_withdraw_needs_no_signature() {
    let mut ctx = signer_vulnerable::Withdraw {
        vault: Account { key: [20; 32], lamports: 500, data: signer_vulnerable::Vault { authority: ALICE, balance: 300 } },
        authority: info(ALICE, false, 10),
    };
    assert_eq!(signer_vulnerable::withdraw(&mut ctx, 300), Ok(()));
    assert_eq!((ctx.vault.data.balance, ctx.vault.lamports, ctx.authority.lamports), (0, 200, 310));
}

#[test]
fn signer_vulnerable_withdraw_still_checks_the_key() {
    let mut ctx = signer_vulnerable::Withdraw {
        vault: Account { key: [20; 32], lamports: 500, data: signer_vulnerable::Vault { authority: ALICE, balance: 300 } },
        authority: info(MALLORY, false, 10),
    };
    assert_eq!(signer_vulnerable::withdraw(&mut ctx, 1), Err(Error::Program(signer_vulnerable::VaultError::Unauthorized)));
}

#[test]
fn owner_fixed_withdraw_pays_the_owner() {
    let mut ctx = owner_fixed::Withdraw {
        vault: Account { key: [21; 32], lamports: 900, data: owner_fixed::Vault { owner: ALICE, balance: 800, is_locked: false } },
        owner: info(ALICE, true, 0),
    };
    assert_eq!(owner_fixed::withdraw(&mut ctx, 800), Ok(()));
    assert_eq!((ctx.vault.data.balance, ctx.vault.lamports, ctx.owner.lamports), (0, 100, 800));
}

#[test]
fn owner_fixed_deposit_moves_lamports_and_records_them() {
    let mut ctx = owner_fixed::Deposit {
        vault: Account { key: [21; 32], lamports: 10, data: owner_fixed::Vault { owner: ALICE, balance: 0, is_locked: false } },
        depositor: info(MALLORY, true, 50),
    };
    assert_eq!(owner_fixed::deposit(&mut ctx, 50), Ok(()));
    assert_eq!((ctx.vault.data.balance, ctx.vault.lamports, ctx.depositor.lamports), (50, 60, 0));
}

/// Bytes laid out like a vault (discriminator, owner, balance), in an account
/// of any program.
fn forged_vault_bytes(owner: [u8; 32], balance: u64) -> Vec<u8> {
    let mut d = vec![0u8; 8];
    d.extend_from_slice(&owner);
    d.extend_from_slice(&le(balance));
    d.push(0);
    d
}

#[test]
fn owner_vulnerable_pays_from_a_forged_account() {
    let mut forged = info([30; 32], false, 5_000);
    forged.owner = [31; 32];
    forged.data = forged_vault_bytes(MALLORY, 1_000_000);
    let mut ctx = owner_vulnerable::WithdrawVulnerable { vault: forged, owner: info(MALLORY, true, 0) };
    assert_eq!(owner_vulnerable::withdraw_vulnerable(&mut ctx, 5_000), Ok(()));
    assert_eq!((ctx.vault.lamports, ctx.owner.lamports), (0, 5_000));
}

#[test]
fn owner_vulnerable_checks_the_named_balance() {
    let mut forged = info([30; 32], false, 5_000);
    forged.data = forged_vault_bytes(MALLORY, 10);
    let mut ctx = owner_vulnerable::WithdrawVulnerable { vault: forged, owner: info(MALLORY, true, 0) };
    assert_eq!(
        owner_vulnerable::withdraw_vulnerable(&mut ctx, 11),
        Err(Error::Program(owner_vulnerable::VaultError::InsufficientFunds))
    );
}

#[test]
fn pda_fixed_records_the_bump_and_checks_it_on_withdrawal() {
    let (vault, bump) = pda(&[&pda_fixed::USER_VAULT_SEED, &ALICE], pda_fixed::ID);
    let init = pda_fixed::InitializeVault { vault: info(vault, false, 0), user: info(ALICE, true, 10) };
    let v = pda_fixed::initialize_vault(&init).unwrap();
    assert_eq!(v, pda_fixed::UserVault { user: ALICE, balance: 0, bump });
    let mut ctx = pda_fixed::Withdraw {
        vault: Account { key: vault, lamports: 1_000, data: pda_fixed::UserVault { user: ALICE, balance: 600, bump } },
        user: info(ALICE, true, 0),
    };
    assert_eq!(pda_fixed::withdraw(&mut ctx, 600), Ok(()));
    assert_eq!((ctx.vault.data.balance, ctx.vault.lamports, ctx.user.lamports), (0, 400, 600));
}

#[test]
fn pda_fixed_refuses_a_substituted_vault() {
    let (vault, bump) = pda(&[&pda_fixed::USER_VAULT_SEED, &ALICE], pda_fixed::ID);
    let mut ctx = pda_fixed::Withdraw {
        vault: Account { key: vault, lamports: 1_000, data: pda_fixed::UserVault { user: ALICE, balance: 600, bump } },
        user: info(MALLORY, true, 0),
    };
    assert_eq!(pda_fixed::withdraw(&mut ctx, 1), Err(Error::Anchor(ErrorCode::ConstraintSeeds)));
}

#[test]
fn pda_vulnerable_pays_from_any_vault_naming_the_user() {
    let mut ctx = pda_vulnerable::WithdrawVulnerable {
        vault: Account { key: [77; 32], lamports: 1_000, data: pda_vulnerable::UserVault { user: MALLORY, balance: 600 } },
        user: info(MALLORY, true, 0),
    };
    assert_eq!(pda_vulnerable::withdraw_vulnerable(&mut ctx, 600), Ok(()));
    assert_eq!(ctx.user.lamports, 600);
}

fn raw_vault(key: [u8; 32], authority: [u8; 32], balance: u64, lamports: u64) -> AccountInfo {
    let mut data = authority.to_vec();
    data.extend_from_slice(&le(balance));
    AccountInfo { key, owner: raw_fixed_program(), lamports, data, is_signer: false, is_writable: true, executable: false }
}

fn raw_fixed_program() -> [u8; 32] {
    [40; 32]
}

#[test]
fn raw_fixed_initialize_writes_authority_and_zero_balance() {
    let program = raw_fixed_program();
    let (vault, _) = pda(&[&raw_fixed::VAULT_SEED, &ALICE], program);
    let mut accounts = vec![
        AccountInfo { data: vec![9u8; 40], ..info(vault, false, 0) },
        info(ALICE, true, 10),
        info(SYSTEM, false, 1),
    ];
    assert_eq!(raw_fixed::process_instruction(&program, &mut accounts, &[raw_fixed::INITIALIZE]), Ok(()));
    let mut expected = ALICE.to_vec();
    expected.extend_from_slice(&le(0));
    assert_eq!(accounts[0].data, expected);
}

#[test]
fn raw_fixed_initialize_refuses_a_foreign_address() {
    let program = raw_fixed_program();
    let mut accounts = vec![info([50; 32], false, 0), info(ALICE, true, 10), info(SYSTEM, false, 1)];
    accounts[0].data = vec![0u8; 40];
    assert_eq!(raw_fixed::process_instruction(&program, &mut accounts, &[raw_fixed::INITIALIZE]), Err(ProgramError::InvalidSeeds));
}

#[test]
fn raw_fixed_deposit_and_withdraw_round_trip() {
    let program = raw_fixed_program();
    let mut accounts = vec![raw_vault([51; 32], ALICE, 0, 100), info(ALICE, true, 1_000), info(SYSTEM, false, 1)];
    let mut data = vec![raw_fixed::DEPOSIT];
    data.extend_from_slice(&le(250));
    assert_eq!(raw_fixed::process_instruction(&program, &mut accounts, &data), Ok(()));
    assert_eq!((accounts[0].lamports, accounts[1].lamports), (350, 750));
    assert_eq!(accounts[0].data[32..40], le(250));
    let mut w = vec![accounts[0].clone(), accounts[1].clone()];
    let mut data = vec![raw_fixed::WITHDRAW];
    data.extend_from_slice(&le(250));
    assert_eq!(raw_fixed::process_instruction(&program, &mut w, &data), Ok(()));
    assert_eq!((w[0].lamports, w[1].lamports), (100, 1_000));
    assert_eq!(w[0].data[32..40], le(0));
}

#[test]
fn raw_fixed_withdraw_needs_a_signature() {
    let program = raw_fixed_program();
    let mut accounts = vec![raw_vault([51; 32], ALICE, 500, 600), info(ALICE, false, 0)];
    let mut data = vec![raw_fixed::WITHDRAW];
    data.extend_from_slice(&le(1));
    assert_eq!(raw_fixed::process_instruction(&program, &mut accounts, &data), Err(ProgramError::MissingRequiredSignature));
}

#[test]
fn raw_fixed_withdraw_by_another_key_is_refused() {
    let program = raw_fixed_program();
    let mut accounts = vec![raw_vault([51; 32], ALICE, 500, 600), info(MALLORY, true, 0)];
    let mut data = vec![raw_fixed::WITHDRAW];
    data.extend_from_slice(&le(1));
    assert_eq!(raw_fixed::process_instruction(&program, &mut accounts, &data), Err(ProgramError::InvalidAccountData));
}

#[test]
fn raw_fixed_unknown_instruction_is_refused() {
    let program = raw_fixed_program();
    let mut accounts = vec![];
    assert_eq!(raw_fixed::process_instruction(&program, &mut accounts, &[7]), Err(ProgramError::InvalidInstructionData));
    assert_eq!(raw_fixed::process_instruction(&program, &mut accounts, &[]), Err(ProgramError::InvalidInstructionData));
}

#[test]
fn raw_fixed_wrong_account_count_is_refused() {
    let program = raw_fixed_program();
    let mut accounts = vec![raw_vault([51; 32], ALICE, 500, 600)];
    let mut data = vec![raw_fixed::WITHDRAW];
    data.extend_from_slice(&le(1));
    assert_eq!(raw_fixed::process_instruction(&program, &mut accounts, &data), Err(ProgramError::NotEnoughAccountKeys));
}

#[test]
fn raw_vulnerable_withdraw_needs_no_signature() {
    let program = raw_fixed_program();
    let mut accounts = vec![raw_vault([51; 32], ALICE, 500, 600), info(ALICE, false, 0)];
    let mut data = vec![raw_vulnerable::WITHDRAW];
    data.extend_from_slice(&le(500));
    assert_eq!(raw_vulnerable::process_instruction(&program, &mut accounts, &data), Ok(()));
    assert_eq!((accounts[0].lamports, accounts[1].lamports), (100, 500));
}
