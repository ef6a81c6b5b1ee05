use anchor_lang::prelude::Pubkey as SolPubkey;
use sealevel_checks::cpi_bugs::anchor::{
    arbitrary_cpi_fixed, arbitrary_cpi_vulnerable, unchecked_pda_fixed, unchecked_pda_vulnerable,
    unchecked_program_id_fixed, unchecked_program_id_vulnerable,
};
use sealevel_checks::cpi_bugs::pinocchio::{
    unchecked_program_id_fixed as raw_fixed, unchecked_program_id_vulnerable as raw_vulnerable,
};
use sealevel_checks::framework::{Account, AccountMeta, Error, ErrorCode, SystemTransfer, SYSTEM_PROGRAM_ID};
use sealevel_checks::runtime::{AccountInfo, ProgramError};

const ALICE: [u8; 32] = [11; 32];
const MALLORY: [u8; 32] = [12; 32];
const EVIL: [u8; 32] = [66; 32];

fn info(key: [u8; 32], is_signer: bool, lamports: u64) -> AccountInfo {
    AccountInfo { key, owner: [0; 32], lamports, data: vec![], is_signer, is_writable: true, executable: false }
}

fn program(key: [u8; 32]) -> AccountInfo {
    AccountInfo { executable: true, ..info(key, false, 1) }
}

fn pda(seeds: &[&[u8]], program: [u8; 32]) -> ([u8; 32], u8) {
    let (k, b) = SolPubkey::find_program_address(seeds, &SolPubkey::new_from_array(program));
    (k.to_bytes(), b)
}

#[test]
fn program_id_fixed_calls_the_system_program() {
    let (ix, event) =
        unchecked_program_id_fixed::cpi_log(&unchecked_program_id_fixed::CpiLog { target_program: program(SYSTEM_PROGRAM_ID) }).unwrap();
    assert_eq!(event, unchecked_program_id_fixed::CpiExecuted { target: SYSTEM_PROGRAM_ID });
    assert_eq!(ix.program_id, SYSTEM_PROGRAM_ID);
    assert!(ix.accounts.is_empty());
    assert_eq!(ix.data, b"Hello".to_vec());
}

#[test]
fn program_id_fixed_refuses_another_program() {
    let r = unchecked_program_id_fixed::cpi_log(&unchecked_program_id_fixed::CpiLog { target_program: program(EVIL) });
    assert_eq!(r, Err(Error::Anchor(ErrorCode::InvalidProgramId)));
}

#[test]
fn program_id_fixed_refuses_a_non_executable_account() {
    let r = unchecked_program_id_fixed::cpi_log(&unchecked_program_id_fixed::CpiLog { target_program: info(SYSTEM_PROGRAM_ID, false, 1) });
    assert_eq!(r, Err(Error::Anchor(ErrorCode::InvalidProgramExecutable)));
}

#[test]
fn program_id_vulnerable_calls_whatever_is_passed() {
    let (ix, event) = unchecked_program_id_vulnerable::cpi_log(&unchecked_program_id_vulnerable::CpiLog { target_program: program(EVIL) }).unwrap();
    assert_eq!(event, unchecked_program_id_vulnerable::CpiExecuted { target: EVIL });
    assert_eq!(ix.program_id, EVIL);
    assert_eq!(ix.data, b"Hello".to_vec());
}

#[test]
fn unchecked_pda_fixed_vault_lifecycle() {
    let (vault, _) = pda(&[&unchecked_pda_fixed::VAULT_SEED, &ALICE], unchecked_pda_fixed::ID);
    let init = unchecked_pda_fixed::InitializeVault { vault: info(vault, false, 0), authority: info(ALICE, true, 10) };
    let (v, event) = unchecked_pda_fixed::initialize_vault(&init).unwrap();
    assert_eq!(v, unchecked_pda_fixed::Vault { amount: 100, owner: ALICE });
    assert_eq!(event, unchecked_pda_fixed::VaultInitialized { vault, owner: ALICE, amount: 100 });
    let mut ctx = unchecked_pda_fixed::Withdraw { vault: Account { key: vault, lamports: 1, data: v }, authority: info(ALICE, true, 0) };
    assert_eq!(
        unchecked_pda_fixed::withdraw(&mut ctx),
        Ok(unchecked_pda_fixed::Withdrawal { vault, authority: ALICE, amount: 100 })
    );
    assert_eq!(ctx.vault.data.amount, 0);
    assert_eq!(unchecked_pda_fixed::withdraw(&mut ctx), Err(Error::Program(unchecked_pda_fixed::VaultError::Empty)));
}

#[test]
fn unchecked_pda_fixed_refuses_a_fake_vault() {
    let fake = unchecked_pda_fixed::Vault { amount: 100, owner: ALICE };
    let mut ctx = unchecked_pda_fixed::Withdraw { vault: Account { key: [55; 32], lamports: 1, data: fake }, authority: info(ALICE, true, 0) };
    assert_eq!(unchecked_pda_fixed::withdraw(&mut ctx), Err(Error::Anchor(ErrorCode::ConstraintSeeds)));
    assert_eq!(ctx.vault.data.amount, 100);
}

#[test]
fn unchecked_pda_fixed_refuses_another_owner() {
    let (vault, _) = pda(&[&unchecked_pda_fixed::VAULT_SEED, &ALICE], unchecked_pda_fixed::ID);
    let data = unchecked_pda_fixed::Vault { amount: 100, owner: MALLORY };
    let mut ctx = unchecked_pda_fixed::Withdraw { vault: Account { key: vault, lamports: 1, data }, authority: info(ALICE, true, 0) };
    assert_eq!(unchecked_pda_fixed::withdraw(&mut ctx), Err(Error::Program(unchecked_pda_fixed::VaultError::NotOwner)));
}

#[test]
fn unchecked_pda_vulnerable_accepts_a_fake_vault() {
    let fake = unchecked_pda_vulnerable::Vault { amount: 100, owner: ALICE };
    let mut ctx = unchecked_pda_vulnerable::Withdraw { vault: Account { key: [55; 32], lamports: 1, data: fake }, authority: info(ALICE, true, 0) };
    assert_eq!(
        unchecked_pda_vulnerable::withdraw(&mut ctx),
        Ok(unchecked_pda_vulnerable::Withdrawal { vault: [55; 32], authority: ALICE, amount: 100 })
    );
    assert_eq!(ctx.vault.data.amount, 0);
}

#[test]
fn unchecked_pda_vulnerable_creation_needs_the_vaults_signature() {
    let init = unchecked_pda_vulnerable::InitializeVault { vault: info([56; 32], false, 0), authority: info(ALICE, true, 10) };
    assert_eq!(unchecked_pda_vulnerable::initialize_vault(&init), Err(Error::Runtime(ProgramError::MissingRequiredSignature)));
    let init = unchecked_pda_vulnerable::InitializeVault { vault: info([56; 32], true, 0), authority: info(ALICE, true, 10) };
    assert_eq!(
        unchecked_pda_vulnerable::initialize_vault(&init),
        Ok((
            unchecked_pda_vulnerable::Vault { amount: 100, owner: ALICE },
            unchecked_pda_vulnerable::VaultInitialized { vault: [56; 32], owner: ALICE, amount: 100 }
        ))
    );
}

#[test]
fn arbitrary_cpi_fixed_pays_the_fixed_reward() {
    let (treasury, bump) = pda(&[&arbitrary_cpi_fixed::TREASURY_SEED], arbitrary_cpi_fixed::ID);
    let ctx = arbitrary_cpi_fixed::ClaimReward {
        pda_treasury: info(treasury, false, 1_000_000),
        recipient: info(ALICE, true, 0),
        system_program: program(SYSTEM_PROGRAM_ID),
    };
    assert_eq!(
        arbitrary_cpi_fixed::claim_reward(&ctx),
        Ok(arbitrary_cpi_fixed::RewardPayment {
            transfer: SystemTransfer { from: treasury, to: ALICE, lamports: 10_000 },
            treasury_bump: bump,
            event: arbitrary_cpi_fixed::RewardClaimed { recipient: ALICE, amount: 10_000 },
        })
    );
}

#[test]
fn arbitrary_cpi_fixed_refuses_a_fake_system_program() {
    let (treasury, _) = pda(&[&arbitrary_cpi_fixed::TREASURY_SEED], arbitrary_cpi_fixed::ID);
    let ctx = arbitrary_cpi_fixed::ClaimReward {
        pda_treasury: info(treasury, false, 1_000_000),
        recipient: info(ALICE, true, 0),
        system_program: program(EVIL),
    };
    assert_eq!(arbitrary_cpi_fixed::claim_reward(&ctx), Err(Error::Anchor(ErrorCode::InvalidProgramId)));
}

#[test]
fn arbitrary_cpi_fixed_needs_the_recipients_signature() {
    let (treasury, _) = pda(&[&arbitrary_cpi_fixed::TREASURY_SEED], arbitrary_cpi_fixed::ID);
    let ctx = arbitrary_cpi_fixed::ClaimReward {
        pda_treasury: info(treasury, false, 1_000_000),
        recipient: info(ALICE, false, 0),
        system_program: program(SYSTEM_PROGRAM_ID),
    };
    assert_eq!(arbitrary_cpi_fixed::claim_reward(&ctx), Err(Error::Anchor(ErrorCode::AccountNotSigner)));
}

#[test]
fn arbitrary_cpi_vulnerable_signs_the_callers_data() {
    let (signer, bump) = pda(&[&arbitrary_cpi_vulnerable::SIGNER_SEED], arbitrary_cpi_vulnerable::ID);
    let ctx = arbitrary_cpi_vulnerable::ProxiedCpi {
        pda_signer: info(signer, false, 5_000_000),
        destination: info(MALLORY, false, 0),
        target_program: program(SYSTEM_PROGRAM_ID),
    };
    let data = vec![2, 0, 0, 0, 64, 75, 76, 0, 0, 0, 0, 0];
    let call = arbitrary_cpi_vulnerable::proxied_cpi(&ctx, data.clone()).unwrap();
    assert_eq!(call.signer_bump, bump);
    assert_eq!(call.instruction.program_id, SYSTEM_PROGRAM_ID);
    assert_eq!(
        call.instruction.accounts,
        vec![
            AccountMeta { pubkey: signer, is_signer: true, is_writable: true },
            AccountMeta { pubkey: MALLORY, is_signer: false, is_writable: true },
        ]
    );
    assert_eq!(call.instruction.data, data);
    assert_eq!(call.event, arbitrary_cpi_vulnerable::ArbitraryCpiExecuted { target: SYSTEM_PROGRAM_ID, destination: MALLORY });
}

#[test]
fn arbitrary_cpi_vulnerable_checks_only_the_signer_address() {
    let ctx = arbitrary_cpi_vulnerable::ProxiedCpi {
        pda_signer: info([57; 32], false, 5_000_000),
        destination: info(MALLORY, false, 0),
        target_program: program(EVIL),
    };
    assert_eq!(arbitrary_cpi_vulnerable::proxied_cpi(&ctx, vec![]), Err(Error::Anchor(ErrorCode::ConstraintSeeds)));
}

#[test]
fn raw_program_id_fixed_checks_the_token_program() {
    let caller = info(ALICE, true, 1);
    assert_eq!(raw_fixed::process_instruction(&[1; 32], &[program(raw_fixed::TOKEN_PROGRAM_ID), caller.clone()], &[0]), Ok(()));
    assert_eq!(
        raw_fixed::process_instruction(&[1; 32], &[program(EVIL), caller.clone()], &[0]),
        Err(ProgramError::IncorrectProgramId)
    );
    assert_eq!(
        raw_fixed::process_instruction(&[1; 32], &[info(raw_fixed::TOKEN_PROGRAM_ID, false, 1), caller.clone()], &[0]),
        Err(ProgramError::InvalidAccountData)
    );
    assert_eq!(
        raw_fixed::process_instruction(&[1; 32], &[program(raw_fixed::TOKEN_PROGRAM_ID), info(ALICE, false, 1)], &[0]),
        Err(ProgramError::MissingRequiredSignature)
    );
    assert_eq!(raw_fixed::process_instruction(&[1; 32], &[caller.clone()], &[0]), Err(ProgramError::NotEnoughAccountKeys));
    assert_eq!(raw_fixed::process_instruction(&[1; 32], &[], &[1]), Err(ProgramError::InvalidInstructionData));
}

#[test]
fn raw_program_id_vulnerable_accepts_any_program() {
    assert_eq!(raw_vulnerable::process_instruction(&[1; 32], &[program(EVIL), info(ALICE, true, 1)], &[0]), Ok(()));
    assert_eq!(raw_vulnerable::process_instruction(&[1; 32], &[], &[]), Err(ProgramError::InvalidInstructionData));
}
