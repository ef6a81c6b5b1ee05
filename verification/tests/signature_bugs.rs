use anchor_lang::prelude::Pubkey as SolPubkey;
use anchor_lang::solana_program::sysvar::instructions::{construct_instructions_data, store_current_index, BorrowedInstruction};
use sealevel_checks::framework::{Account, Error, ErrorCode, SystemTransfer};
use sealevel_checks::outside::INSTRUCTIONS_SYSVAR_ID;
use sealevel_checks::runtime::{AccountInfo, ProgramError};
use sealevel_checks::signature_bugs::anchor::{introspection_fixed, introspection_vulnerable, signature_fixed, signature_vulnerable};
use sealevel_checks::signature_bugs::pinocchio::{
    signature_verification_fixed as raw_fixed, signature_verification_vulnerable as raw_vulnerable,
};

const ALICE: [u8; 32] = [11; 32];
const MALLORY: [u8; 32] = [12; 32];
const REWARD: [u8; 32] = [13; 32];
const OTHER_PROGRAM: [u8; 32] = [14; 32];

fn info(key: [u8; 32], is_signer: bool, lamports: u64) -> AccountInfo {
    AccountInfo { key, owner: [0; 32], lamports, data: vec![], is_signer, is_writable: true, executable: false }
}

/// Ed25519 verification data naming `key` at 16..48 and `message` from 112 on.
fn ed25519_data(key: [u8; 32], message: &[u8]) -> Vec<u8> {
    let mut d = vec![0u8; 112];
    d[16..48].copy_from_slice(&key);
    d.extend_from_slice(message);
    d
}

/// The instructions sysvar of a transaction made of `ixs`, running instruction `current`.
fn sysvar(ixs: &[([u8; 32], Vec<u8>)], current: u16) -> AccountInfo {
    let ids: Vec<SolPubkey> = ixs.iter().map(|(p, _)| SolPubkey::new_from_array(*p)).collect();
    let borrowed: Vec<BorrowedInstruction> = ixs
        .iter()
        .zip(ids.iter())
        .map(|((_, d), id)| BorrowedInstruction { program_id: id, accounts: vec![], data: d })
        .collect();
    let mut data = construct_instructions_data(&borrowed);
    store_current_index(&mut data, current);
    AccountInfo { data, ..info(INSTRUCTIONS_SYSVAR_ID, false, 1) }
}

fn claim_message(reward: [u8; 32], nonce: u64) -> Vec<u8> {
    format!("CLAIM:{}:{}", SolPubkey::new_from_array(reward), nonce).into_bytes()
}

fn fixed_claim(sysvar_account: AccountInfo) -> introspection_fixed::ClaimReward {
    introspection_fixed::ClaimReward {
        reward: Account {
            key: REWARD,
            lamports: 1,
            data: introspection_fixed::Reward { authority: ALICE, amount: 500, claimed: false, nonce: 3 },
        },
        claimer: info(MALLORY, true, 0),
        instruction_sysvar: sysvar_account,
    }
}

#[test]
fn introspection_fixed_accepts_the_authoritys_verification_of_the_message() {
    let msg = claim_message(REWARD, 3);
    let s = sysvar(&[(introspection_fixed::ED25519_PROGRAM_ID, ed25519_data(ALICE, &msg)), (introspection_fixed::ID, vec![])], 1);
    let mut ctx = fixed_claim(s);
    assert_eq!(
        introspection_fixed::claim_reward(&mut ctx, [0; 64], msg),
        Ok(introspection_fixed::RewardClaimed { reward: REWARD, claimer: MALLORY, amount: 500 })
    );
    assert!(ctx.reward.data.claimed);
    assert_eq!(ctx.reward.data.nonce, 4);
}

#[test]
fn introspection_fixed_refuses_another_signers_verification() {
    let msg = claim_message(REWARD, 3);
    let s = sysvar(&[(introspection_fixed::ED25519_PROGRAM_ID, ed25519_data(MALLORY, &msg)), (introspection_fixed::ID, vec![])], 1);
    let mut ctx = fixed_claim(s);
    assert_eq!(
        introspection_fixed::claim_reward(&mut ctx, [0; 64], msg),
        Err(Error::Program(introspection_fixed::IntrospectionError::InvalidSignature))
    );
    assert!(!ctx.reward.data.claimed);
}

#[test]
fn introspection_fixed_refuses_a_stale_nonce() {
    let msg = claim_message(REWARD, 2);
    let s = sysvar(&[(introspection_fixed::ED25519_PROGRAM_ID, ed25519_data(ALICE, &msg)), (introspection_fixed::ID, vec![])], 1);
    let mut ctx = fixed_claim(s);
    assert_eq!(
        introspection_fixed::claim_reward(&mut ctx, [0; 64], msg),
        Err(Error::Program(introspection_fixed::IntrospectionError::InvalidMessage))
    );
}

#[test]
fn introspection_fixed_without_verification_is_refused() {
    let msg = claim_message(REWARD, 3);
    let s = sysvar(&[(OTHER_PROGRAM, vec![1, 2]), (introspection_fixed::ID, vec![])], 1);
    let mut ctx = fixed_claim(s);
    assert_eq!(
        introspection_fixed::claim_reward(&mut ctx, [0; 64], msg),
        Err(Error::Program(introspection_fixed::IntrospectionError::InvalidSignature))
    );
}

#[test]
fn introspection_fixed_refuses_a_fake_sysvar() {
    let msg = claim_message(REWARD, 3);
    let mut s = sysvar(&[(introspection_fixed::ED25519_PROGRAM_ID, ed25519_data(ALICE, &msg))], 1);
    s.key = [15; 32];
    let mut ctx = fixed_claim(s);
    assert_eq!(introspection_fixed::claim_reward(&mut ctx, [0; 64], msg), Err(Error::Anchor(ErrorCode::ConstraintAddress)));
}

#[test]
fn introspection_fixed_claims_once() {
    let msg = claim_message(REWARD, 3);
    let s = sysvar(&[(introspection_fixed::ED25519_PROGRAM_ID, ed25519_data(ALICE, &msg)), (introspection_fixed::ID, vec![])], 1);
    let mut ctx = fixed_claim(s);
    ctx.reward.data.claimed = true;
    assert_eq!(
        introspection_fixed::claim_reward(&mut ctx, [0; 64], msg),
        Err(Error::Program(introspection_fixed::IntrospectionError::AlreadyClaimed))
    );
}

#[test]
fn introspection_fixed_refuses_a_claimed_reward_before_reading_the_sysvar() {
    let empty = AccountInfo { data: vec![], ..info(INSTRUCTIONS_SYSVAR_ID, false, 1) };
    let mut ctx = fixed_claim(empty);
    ctx.reward.data.claimed = true;
    assert_eq!(
        introspection_fixed::claim_reward(&mut ctx, [0; 64], claim_message(REWARD, 3)),
        Err(Error::Program(introspection_fixed::IntrospectionError::AlreadyClaimed))
    );
    ctx.reward.data.claimed = false;
    assert_eq!(
        introspection_fixed::claim_reward(&mut ctx, [0; 64], b"CLAIM:other".to_vec()),
        Err(Error::Program(introspection_fixed::IntrospectionError::InvalidMessage))
    );
}

#[test]
fn introspection_vulnerable_accepts_any_verification() {
    let s = sysvar(&[(introspection_vulnerable::ED25519_PROGRAM_ID, ed25519_data(MALLORY, b"anything")), (introspection_vulnerable::ID, vec![])], 1);
    let mut ctx = introspection_vulnerable::ClaimReward {
        reward: Account { key: REWARD, lamports: 1, data: introspection_vulnerable::Reward { authority: ALICE, amount: 500, claimed: false } },
        claimer: info(MALLORY, true, 0),
        instruction_sysvar: s,
    };
    assert_eq!(
        introspection_vulnerable::claim_reward(&mut ctx),
        Ok(introspection_vulnerable::RewardClaimed { reward: REWARD, claimer: MALLORY, amount: 500 })
    );
    assert!(ctx.reward.data.claimed);
}

#[test]
fn introspection_vulnerable_without_any_verification_is_refused() {
    let s = sysvar(&[(OTHER_PROGRAM, vec![]), (introspection_vulnerable::ID, vec![])], 1);
    let mut ctx = introspection_vulnerable::ClaimReward {
        reward: Account { key: REWARD, lamports: 1, data: introspection_vulnerable::Reward { authority: ALICE, amount: 500, claimed: false } },
        claimer: info(MALLORY, true, 0),
        instruction_sysvar: s,
    };
    assert_eq!(
        introspection_vulnerable::claim_reward(&mut ctx),
        Err(Error::Program(introspection_vulnerable::IntrospectionError::MissingSignature))
    );
}

#[test]
fn introspection_initialize_records_the_authority() {
    let ctx = introspection_fixed::Initialize { reward: info(REWARD, true, 0), authority: info(ALICE, true, 10) };
    assert_eq!(
        introspection_fixed::initialize(&ctx, 500),
        Ok((
            introspection_fixed::Reward { authority: ALICE, amount: 500, claimed: false, nonce: 0 },
            introspection_fixed::RewardInitialized { reward: REWARD, authority: ALICE, amount: 500 }
        ))
    );
}

fn pda(seeds: &[&[u8]], program: [u8; 32]) -> ([u8; 32], u8) {
    let (k, b) = SolPubkey::find_program_address(seeds, &SolPubkey::new_from_array(program));
    (k.to_bytes(), b)
}

#[test]
fn signature_fixed_owner_change_needs_the_owners_signature() {
    let (vault, bump) = pda(&[&signature_fixed::VAULT_SEED, &ALICE], signature_fixed::ID);
    let data = signature_fixed::Vault { owner: ALICE, balance: 100, seed_key: ALICE, bump };
    let mut ctx = signature_fixed::UpdateOwner { vault: Account { key: vault, lamports: 1, data }, authority: info(ALICE, false, 0) };
    assert_eq!(signature_fixed::update_owner(&mut ctx, MALLORY), Err(Error::Anchor(ErrorCode::AccountNotSigner)));
    ctx.authority = info(MALLORY, true, 0);
    assert_eq!(signature_fixed::update_owner(&mut ctx, MALLORY), Err(Error::Program(signature_fixed::SignatureError::InvalidOwner)));
    ctx.authority = info(ALICE, true, 0);
    assert_eq!(
        signature_fixed::update_owner(&mut ctx, MALLORY),
        Ok(signature_fixed::OwnerUpdated { vault, old_owner: ALICE, new_owner: MALLORY })
    );
    assert_eq!(ctx.vault.data.owner, MALLORY);
}

#[test]
fn signature_fixed_initialize_and_deposit() {
    let (vault, bump) = pda(&[&signature_fixed::VAULT_SEED, &ALICE], signature_fixed::ID);
    let ctx = signature_fixed::Initialize { vault: info(vault, false, 0), signer: info(ALICE, true, 10) };
    let (v, event) = signature_fixed::initialize(&ctx).unwrap();
    assert_eq!(v, signature_fixed::Vault { owner: ALICE, balance: 0, seed_key: ALICE, bump });
    assert_eq!(event, signature_fixed::VaultCreated { vault, owner: ALICE });
    let mut dep = signature_fixed::Deposit { vault: Account { key: vault, lamports: 1, data: v }, depositor: info(MALLORY, true, 50) };
    assert_eq!(
        signature_fixed::deposit(&mut dep, 50),
        Ok((SystemTransfer { from: MALLORY, to: vault, lamports: 50 }, signature_fixed::Deposited { vault, depositor: MALLORY, amount: 50 }))
    );
    assert_eq!(dep.vault.data.balance, 50);
}

#[test]
fn signature_vulnerable_anyone_passing_the_key_takes_the_vault() {
    let data = signature_vulnerable::Vault { owner: ALICE, balance: 100, seed_key: ALICE, bump: 255 };
    let mut ctx = signature_vulnerable::UpdateOwner { vault: Account { key: [3; 32], lamports: 1, data }, authority: info(ALICE, false, 0) };
    assert_eq!(
        signature_vulnerable::update_owner(&mut ctx, MALLORY),
        Ok(signature_vulnerable::OwnerUpdated { vault: [3; 32], old_owner: ALICE, new_owner: MALLORY })
    );
    assert_eq!(ctx.vault.data.owner, MALLORY);
    let mut w = signature_vulnerable::Withdraw { vault: ctx.vault.clone(), authority: info(MALLORY, false, 0) };
    w.vault.lamports = 100;
    assert_eq!(
        signature_vulnerable::withdraw(&mut w, 100),
        Ok(signature_vulnerable::Withdrawn { vault: [3; 32], authority: MALLORY, amount: 100 })
    );
    assert_eq!((w.vault.data.balance, w.authority.lamports), (0, 100));
}

fn verify_data(len: usize) -> Vec<u8> {
    let mut d = vec![raw_fixed::VERIFY_AND_EXECUTE];
    d.extend(std::iter::repeat(7u8).take(len));
    d
}

/// Ed25519 verification data of `signature` over `message` by `key`.
fn ed25519_full(key: [u8; 32], signature: &[u8], message: &[u8]) -> Vec<u8> {
    let mut d = vec![0u8; 112];
    d[16..48].copy_from_slice(&key);
    d[48..112].copy_from_slice(signature);
    d.extend_from_slice(message);
    d
}

#[test]
fn raw_signature_fixed_parses_and_checks_lengths() {
    let data = verify_data(96);
    let verified = sysvar(&[(raw_fixed::ED25519_PROGRAM_ID, ed25519_full(ALICE, &data[1..65], &data[65..])), (OTHER_PROGRAM, vec![])], 1);
    let accounts = vec![info(ALICE, true, 0), verified];
    assert_eq!(raw_fixed::process_instruction(&[1; 32], &accounts, &data), Ok(()));
    assert_eq!(raw_fixed::process_instruction(&[1; 32], &accounts, &verify_data(95)), Err(ProgramError::InvalidInstructionData));
    assert_eq!(raw_fixed::process_instruction(&[1; 32], &accounts[..1].to_vec(), &data), Err(ProgramError::NotEnoughAccountKeys));
    assert_eq!(raw_fixed::process_instruction(&[1; 32], &accounts, &[]), Err(ProgramError::InvalidInstructionData));
}

#[test]
fn raw_signature_fixed_refuses_without_a_matching_verification() {
    let data = verify_data(96);
    // no verification in the transaction
    let none = sysvar(&[(OTHER_PROGRAM, vec![])], 0);
    assert_eq!(raw_fixed::process_instruction(&[1; 32], &vec![info(ALICE, true, 0), none], &data), Err(ProgramError::MissingRequiredSignature));
    // a verification by another key
    let other = sysvar(&[(raw_fixed::ED25519_PROGRAM_ID, ed25519_full(MALLORY, &data[1..65], &data[65..])), (OTHER_PROGRAM, vec![])], 1);
    assert_eq!(raw_fixed::process_instruction(&[1; 32], &vec![info(ALICE, true, 0), other], &data), Err(ProgramError::MissingRequiredSignature));
    // a verification of another signature
    let other_sig = sysvar(&[(raw_fixed::ED25519_PROGRAM_ID, ed25519_full(ALICE, &[9u8; 64], &data[65..])), (OTHER_PROGRAM, vec![])], 1);
    assert_eq!(raw_fixed::process_instruction(&[1; 32], &vec![info(ALICE, true, 0), other_sig], &data), Err(ProgramError::MissingRequiredSignature));
    // a fake sysvar account
    let fake = AccountInfo { key: [15; 32], ..sysvar(&[(OTHER_PROGRAM, vec![])], 0) };
    assert_eq!(raw_fixed::process_instruction(&[1; 32], &vec![info(ALICE, true, 0), fake], &data), Err(ProgramError::UnsupportedSysvar));
}

#[test]
fn raw_signature_vulnerable_goes_ahead_without_verification() {
    // an unsigned account and any bytes of the right length pass
    let accounts = vec![info(MALLORY, false, 0), info([15; 32], false, 0)];
    assert_eq!(raw_vulnerable::process_instruction(&[1; 32], &accounts, &verify_data(96)), Ok(()));
    assert_eq!(raw_vulnerable::process_instruction(&[1; 32], &accounts, &verify_data(64)), Err(ProgramError::InvalidInstructionData));
}

#[test]
fn slice_from_drops_the_prefix() {
    assert_eq!(raw_fixed::slice_from(&[1, 2, 3, 4], 1), &[2, 3, 4]);
    assert_eq!(raw_vulnerable::slice_from(&[1, 2, 3, 4], 4), &[] as &[u8]);
}
