use sealevel_checks::framework::{Account, Error, ErrorCode};
use sealevel_checks::program_upgrade::anchor::{storage_collision_fixed as fixed, storage_collision_v1 as v1, storage_collision_v2 as v2};
use sealevel_checks::program_upgrade::pinocchio::{
    upgrade_authority_fixed as authority_fixed, upgrade_authority_vulnerable as authority_vulnerable,
};
use sealevel_checks::runtime::{AccountInfo, ProgramError};

const ALICE: [u8; 32] = [11; 32];
const MALLORY: [u8; 32] = [12; 32];

fn info(key: [u8; 32], is_signer: bool, lamports: u64) -> AccountInfo {
    AccountInfo { key, owner: [0; 32], lamports, data: vec![], is_signer, is_writable: true, executable: false }
}

fn vault_account(data: Vec<u8>) -> AccountInfo {
    AccountInfo { data, owner: v1::ID, ..info([5; 32], false, 1_000_000) }
}

#[test]
fn v1_encodes_the_documented_layout() {
    let bytes = v1::encode_vault(&v1::Vault { balance: 1000, owner: ALICE, is_active: true });
    assert_eq!(bytes.len(), v1::VAULT_SPACE);
    assert_eq!(bytes[0..8], v1::VAULT_DISCRIMINATOR);
    assert_eq!(bytes[8..16], 1000u64.to_le_bytes());
    assert_eq!(bytes[16..48], ALICE);
    assert_eq!(bytes[48], 1);
    assert!(bytes[49..].iter().all(|b| *b == 0));
}

#[test]
fn v1_create_deposit_withdraw() {
    let ctx = v1::CreateVault { vault: info([5; 32], true, 0), owner: info(ALICE, true, 10) };
    let (v, event) = v1::create_vault(&ctx, 1000).unwrap();
    assert_eq!(v, v1::Vault { balance: 1000, owner: ALICE, is_active: true });
    assert_eq!(event, v1::VaultCreated { vault: [5; 32], owner: ALICE, balance: 1000 });
    let mut op = v1::VaultOperation { vault: Account { key: [5; 32], lamports: 1, data: v }, owner: info(ALICE, true, 0) };
    assert_eq!(v1::deposit(&mut op, 500), Ok(v1::Deposited { vault: [5; 32], amount: 500, new_balance: 1500 }));
    assert_eq!(v1::withdraw(&mut op, 1500), Ok(v1::Withdrawn { vault: [5; 32], amount: 1500, new_balance: 0 }));
    assert_eq!(op.vault.data.balance, 0);
    assert_eq!(v1::withdraw(&mut op, 1), Err(Error::Program(v1::VaultError::InsufficientBalance)));
    assert_eq!(v1::deposit(&mut op, u64::MAX), Ok(v1::Deposited { vault: [5; 32], amount: u64::MAX, new_balance: u64::MAX }));
    assert_eq!(v1::deposit(&mut op, 1), Err(Error::Program(v1::VaultError::Overflow)));
}

#[test]
fn v1_operations_check_activity_and_owner() {
    let data = v1::Vault { balance: 10, owner: ALICE, is_active: false };
    let mut op = v1::VaultOperation { vault: Account { key: [5; 32], lamports: 1, data }, owner: info(ALICE, true, 0) };
    assert_eq!(v1::deposit(&mut op, 1), Err(Error::Program(v1::VaultError::VaultInactive)));
    op.vault.data.is_active = true;
    op.owner = info(MALLORY, true, 0);
    assert_eq!(v1::withdraw(&mut op, 1), Err(Error::Program(v1::VaultError::NotOwner)));
}

#[test]
fn v2_reads_an_active_v1_vault_as_admin() {
    let bytes = v1::encode_vault(&v1::Vault { balance: 1000, owner: MALLORY, is_active: true });
    let decoded = v2::decode_vault(&bytes).unwrap();
    assert!(decoded.is_admin);
    assert!(!decoded.is_active);
    let ctx = v2::AdminWithdraw { vault: vault_account(bytes), admin: info(MALLORY, true, 0) };
    let key = ctx.vault.key;
    assert_eq!(
        v2::admin_withdraw(&ctx, 600),
        Ok(v2::AdminWithdrawal { vault: key, admin: MALLORY, amount: 600, remaining_balance: 400 })
    );
    assert_eq!(v2::emergency_pause(&ctx), Ok(v2::EmergencyPaused { vault: key, paused_by: MALLORY }));
    assert_eq!(v2::admin_withdraw(&ctx, 1001), Err(Error::Program(v2::UpgradeError::InsufficientBalance)));
}

#[test]
fn v2_inactive_v1_vault_is_not_admin() {
    let bytes = v1::encode_vault(&v1::Vault { balance: 1000, owner: MALLORY, is_active: false });
    let ctx = v2::AdminWithdraw { vault: vault_account(bytes), admin: info(MALLORY, true, 0) };
    assert_eq!(v2::admin_withdraw(&ctx, 1), Err(Error::Program(v2::UpgradeError::NotAdmin)));
}

#[test]
fn fixed_reads_every_v1_vault_as_non_admin() {
    let bytes = v1::encode_vault(&v1::Vault { balance: 1000, owner: MALLORY, is_active: true });
    let decoded = fixed::decode_vault(&bytes).unwrap();
    assert_eq!(decoded, fixed::Vault { balance: 1000, owner: MALLORY, is_active: true, is_admin: false });
    let ctx = fixed::AdminWithdraw { vault: vault_account(bytes), admin: info(MALLORY, true, 0) };
    assert_eq!(fixed::admin_withdraw(&ctx, 1), Err(Error::Program(fixed::UpgradeError::NotAdmin)));
}

#[test]
fn fixed_admin_flag_at_byte_49_grants_access() {
    let mut bytes = v1::encode_vault(&v1::Vault { balance: 1000, owner: ALICE, is_active: true });
    bytes[49] = 1;
    let ctx = fixed::AdminWithdraw { vault: vault_account(bytes), admin: info(ALICE, true, 0) };
    let key = ctx.vault.key;
    assert_eq!(
        fixed::admin_withdraw(&ctx, 1000),
        Ok(fixed::AdminWithdrawal { vault: key, admin: ALICE, amount: 1000, remaining_balance: 0 })
    );
}

#[test]
fn decoding_errors() {
    assert_eq!(fixed::decode_vault(&[1, 2]), Err(ErrorCode::AccountDiscriminatorNotFound));
    assert_eq!(fixed::decode_vault(&[0; 60]), Err(ErrorCode::AccountDiscriminatorMismatch));
    let mut bytes = v1::encode_vault(&v1::Vault { balance: 1, owner: ALICE, is_active: true });
    bytes[48] = 2;
    assert_eq!(fixed::decode_vault(&bytes), Err(ErrorCode::AccountDidNotDeserialize));
    assert_eq!(v2::decode_vault(&bytes[..49]), Err(ErrorCode::AccountDidNotDeserialize));
}

#[test]
fn admin_withdraw_needs_a_signature() {
    let bytes = v1::encode_vault(&v1::Vault { balance: 1000, owner: MALLORY, is_active: true });
    let ctx = v2::AdminWithdraw { vault: vault_account(bytes), admin: info(MALLORY, false, 0) };
    assert_eq!(v2::admin_withdraw(&ctx, 1), Err(Error::Anchor(ErrorCode::AccountNotSigner)));
}

#[test]
fn fixed_grant_and_revoke_admin() {
    let data = fixed::Vault { balance: 1, owner: MALLORY, is_active: true, is_admin: false };
    let grantor = fixed::Vault { balance: 1, owner: ALICE, is_active: true, is_admin: true };
    let mut ctx = fixed::GrantAdmin {
        vault: Account { key: [5; 32], lamports: 1, data },
        admin: info(ALICE, true, 0),
        grantor_vault: Account { key: [7; 32], lamports: 1, data: grantor },
    };
    assert_eq!(fixed::grant_admin(&mut ctx), Ok(fixed::AdminGranted { vault: [5; 32], granted_by: ALICE }));
    assert!(ctx.vault.data.is_admin);
    let mut op = fixed::AdminOperation { vault: ctx.vault, admin: info(ALICE, true, 0) };
    assert_eq!(fixed::revoke_admin(&mut op), Ok(fixed::AdminRevoked { vault: [5; 32], revoked_by: ALICE }));
    assert!(!op.vault.data.is_admin);
}

#[test]
fn fixed_grant_admin_needs_a_signing_admin() {
    let data = fixed::Vault { balance: 1, owner: MALLORY, is_active: true, is_admin: false };
    let not_admin = fixed::Vault { balance: 1, owner: MALLORY, is_active: true, is_admin: false };
    let mut ctx = fixed::GrantAdmin {
        vault: Account { key: [5; 32], lamports: 1, data },
        admin: info(MALLORY, true, 0),
        grantor_vault: Account { key: [7; 32], lamports: 1, data: not_admin },
    };
    assert_eq!(fixed::grant_admin(&mut ctx), Err(Error::Program(fixed::UpgradeError::NotAdmin)));
    assert!(!ctx.vault.data.is_admin);
    // an admin vault that belongs to someone else does not count
    ctx.grantor_vault.data = fixed::Vault { balance: 1, owner: ALICE, is_active: true, is_admin: true };
    assert_eq!(fixed::grant_admin(&mut ctx), Err(Error::Program(fixed::UpgradeError::NotAdmin)));
    ctx.admin = info(ALICE, false, 0);
    assert_eq!(fixed::grant_admin(&mut ctx), Err(Error::Anchor(ErrorCode::AccountNotSigner)));
    assert!(!ctx.vault.data.is_admin);
}

fn program_data(authority: [u8; 32]) -> AccountInfo {
    AccountInfo { data: authority.to_vec(), ..info([6; 32], false, 1) }
}

fn set_authority(new: [u8; 32]) -> Vec<u8> {
    let mut d = vec![authority_fixed::SET_UPGRADE_AUTHORITY];
    d.extend_from_slice(&new);
    d
}

#[test]
fn authority_fixed_only_the_current_authority_replaces_itself() {
    let mut accounts = vec![program_data(ALICE), info(MALLORY, true, 0)];
    assert_eq!(authority_fixed::process_instruction(&[1; 32], &mut accounts, &set_authority(MALLORY)), Err(ProgramError::InvalidAccountData));
    assert_eq!(accounts[0].data, ALICE.to_vec());
    let mut accounts = vec![program_data(ALICE), info(ALICE, true, 0)];
    assert_eq!(authority_fixed::process_instruction(&[1; 32], &mut accounts, &set_authority(MALLORY)), Ok(()));
    assert_eq!(accounts[0].data, MALLORY.to_vec());
}

#[test]
fn authority_fixed_short_data_is_refused() {
    let mut accounts = vec![program_data(ALICE), info(ALICE, true, 0)];
    assert_eq!(authority_fixed::process_instruction(&[1; 32], &mut accounts, &[0; 32]), Err(ProgramError::InvalidInstructionData));
}

#[test]
fn authority_vulnerable_any_signer_takes_over() {
    let mut accounts = vec![program_data(ALICE), info(MALLORY, true, 0)];
    assert_eq!(authority_vulnerable::process_instruction(&[1; 32], &mut accounts, &set_authority(MALLORY)), Ok(()));
    assert_eq!(accounts[0].data, MALLORY.to_vec());
    let mut accounts = vec![program_data(ALICE), info(MALLORY, false, 0)];
    assert_eq!(
        authority_vulnerable::process_instruction(&[1; 32], &mut accounts, &set_authority(MALLORY)),
        Err(ProgramError::MissingRequiredSignature)
    );
}
