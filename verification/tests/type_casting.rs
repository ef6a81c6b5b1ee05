use sealevel_checks::framework::{Account, Error, ErrorCode};
use sealevel_checks::runtime::{AccountInfo, ProgramError};
use sealevel_checks::type_casting::anchor::{truncation_fixed as fixed, truncation_vulnerable as vulnerable};
use sealevel_checks::type_casting::pinocchio::{truncation_fixed as raw_fixed, truncation_vulnerable as raw_vulnerable};

const ALICE: [u8; 32] = [11; 32];
const MALLORY: [u8; 32] = [12; 32];

fn info(key: [u8; 32], is_signer: bool) -> AccountInfo {
    AccountInfo { key, owner: [0; 32], lamports: 1, data: vec![], is_signer, is_writable: true, executable: false }
}

#[test]
fn fixed_stores_a_product_that_fits() {
    let mut ctx = fixed::Calculate {
        state: Account { key: [1; 32], lamports: 1, data: fixed::State { value: 1 << 32, result: 0, authority: ALICE } },
        authority: info(ALICE, true),
    };
    assert_eq!(fixed::calculate(&mut ctx, (1 << 32) - 1), Ok(()));
    assert_eq!(ctx.state.data.result, (1u64 << 32) * ((1u64 << 32) - 1));
}

#[test]
fn fixed_refuses_a_product_that_does_not_fit() {
    let mut ctx = fixed::Calculate {
        state: Account { key: [1; 32], lamports: 1, data: fixed::State { value: 1 << 32, result: 7, authority: ALICE } },
        authority: info(ALICE, true),
    };
    assert_eq!(fixed::calculate(&mut ctx, 1 << 32), Err(Error::Program(fixed::ErrorCode::Overflow)));
    assert_eq!(ctx.state.data.result, 7);
}

#[test]
fn fixed_checks_the_authority() {
    let mut ctx = fixed::Calculate {
        state: Account { key: [1; 32], lamports: 1, data: fixed::State { value: 2, result: 0, authority: ALICE } },
        authority: info(MALLORY, true),
    };
    assert_eq!(fixed::calculate(&mut ctx, 3), Err(Error::Anchor(ErrorCode::ConstraintHasOne)));
}

#[test]
fn vulnerable_keeps_the_low_64_bits() {
    let mut ctx = vulnerable::Calculate {
        state: Account { key: [1; 32], lamports: 1, data: vulnerable::State { value: 1 << 32, result: 0, authority: ALICE } },
        authority: info(ALICE, true),
    };
    // 2^32 * (2^32 + 100) = 2^64 + 100 * 2^32
    assert_eq!(vulnerable::calculate(&mut ctx, (1 << 32) + 100), Ok(()));
    assert_eq!(ctx.state.data.result, 100 << 32);
}

#[test]
fn initialize_records_value_and_authority() {
    let ctx = fixed::Initialize { state: info([1; 32], true), authority: info(ALICE, true) };
    assert_eq!(fixed::initialize(&ctx, 9), Ok(fixed::State { value: 9, result: 0, authority: ALICE }));
    let ctx = vulnerable::Initialize { state: info([1; 32], true), authority: info(ALICE, false) };
    assert_eq!(vulnerable::initialize(&ctx, 9), Err(Error::Anchor(ErrorCode::AccountNotSigner)));
}

fn calc_data(a: u64, b: u64) -> Vec<u8> {
    let mut d = vec![raw_fixed::CALCULATE];
    d.extend_from_slice(&a.to_le_bytes());
    d.extend_from_slice(&b.to_le_bytes());
    d
}

#[test]
fn raw_fixed_refuses_overflow_and_stores_exact_products() {
    let mut accounts = vec![AccountInfo { data: vec![0; 8], ..info([2; 32], false) }, info(ALICE, true)];
    assert_eq!(raw_fixed::process_instruction(&[1; 32], &mut accounts, &calc_data(u64::MAX, 2)), Err(ProgramError::ArithmeticOverflow));
    assert_eq!(raw_fixed::process_instruction(&[1; 32], &mut accounts, &calc_data(6, 7)), Ok(()));
    assert_eq!(accounts[0].data, 42u64.to_le_bytes().to_vec());
    assert_eq!(raw_fixed::process_instruction(&[1; 32], &mut accounts, &calc_data(6, 7)[..16]), Err(ProgramError::InvalidInstructionData));
}

#[test]
fn raw_vulnerable_truncates() {
    let mut accounts = vec![AccountInfo { data: vec![0; 8], ..info([2; 32], false) }, info(ALICE, true)];
    assert_eq!(raw_vulnerable::process_instruction(&[1; 32], &mut accounts, &calc_data(u64::MAX, 2)), Ok(()));
    assert_eq!(accounts[0].data, (u64::MAX - 1).to_le_bytes().to_vec());
}
