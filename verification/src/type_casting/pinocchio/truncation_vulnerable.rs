//! A product of two instruction values stored in raw account bytes after a
//! cast to 64 bits, so a product that does not fit keeps only its low 64 bits.
//! Layout: result (little-endian `u64`) at 0..8.
use crate::bytes::{le_u64_at, put_u64, read_u64_le, write_u64_le};
use crate::math::{lemma_truncate_u128, wrap_u64};
use crate::runtime::{account_is, AccountInfo, ProgramError, Pubkey};
use vstd::prelude::*;

verus! {

pub const CALCULATE: u8 = 0;
pub const RESULT_OFFSET: usize = 0;

/// What `process_calculate` does: refuses a wrong number of accounts or an
/// unsigned caller; otherwise stores the product modulo 2^64.
pub open spec fn calculate_spec(old: Seq<AccountInfo>, new: Seq<AccountInfo>, value_a: u64, value_b: u64, r: Result<(), ProgramError>) -> bool {
    if old.len() != 2 {
        r == Err::<(), ProgramError>(ProgramError::NotEnoughAccountKeys) && new == old
    } else if !old[1].is_signer {
        r == Err::<(), ProgramError>(ProgramError::MissingRequiredSignature) && new == old
    } else {
        &&& r is Ok
        &&& new.len() == 2
        &&& account_is(new[0], old[0], old[0].lamports, put_u64(old[0].data@, 0, wrap_u64(value_a * value_b)))
        &&& new[1] == old[1]
    }
}

/// Whether the result account's bytes hold a result wherever it is written.
pub open spec fn result_sized(accounts: Seq<AccountInfo>) -> bool {
    accounts.len() == 2 && accounts[1].is_signer ==> accounts[0].data@.len() >= RESULT_OFFSET + 8
}

pub fn process_calculate(accounts: &mut Vec<AccountInfo>, value_a: u64, value_b: u64) -> (r: Result<(), ProgramError>)
    requires
        result_sized(old(accounts)@),
    ensures
        calculate_spec(old(accounts)@, final(accounts)@, value_a, value_b, r),
{
    if accounts.len() != 2 {
        return Err(ProgramError::NotEnoughAccountKeys);
    }
    if !accounts[1].is_signer {
        return Err(ProgramError::MissingRequiredSignature);
    }
    let a = value_a as u128;
    let b = value_b as u128;
    assert(a * b <= u64::MAX * u64::MAX) by (nonlinear_arith)
        requires
            a <= u64::MAX,
            b <= u64::MAX,
    ;
    let result_u128: u128 = a * b;
    proof {
        lemma_truncate_u128(result_u128);
    }
    write_u64_le(&mut accounts[0].data, RESULT_OFFSET, result_u128 as u64);
    Ok(())
}

/// Decodes the instruction (tag, then two values at bytes 1..9 and 9..17) and
/// runs it; data shorter than 17 bytes is refused.
pub fn process_instruction(program_id: &Pubkey, accounts: &mut Vec<AccountInfo>, instruction_data: &[u8]) -> (r: Result<(), ProgramError>)
    requires
        instruction_data@.len() >= 17 && instruction_data@[0] == CALCULATE ==> result_sized(old(accounts)@),
    ensures
        instruction_data@.len() < 17 || instruction_data@[0] != CALCULATE
            ==> r == Err::<(), ProgramError>(ProgramError::InvalidInstructionData) && final(accounts)@ == old(accounts)@,
        instruction_data@.len() >= 17 && instruction_data@[0] == CALCULATE ==> calculate_spec(
            old(accounts)@,
            final(accounts)@,
            le_u64_at(instruction_data@, 1),
            le_u64_at(instruction_data@, 9),
            r,
        ),
{
    if instruction_data.len() < 17 {
        return Err(ProgramError::InvalidInstructionData);
    }
    if instruction_data[0] == CALCULATE {
        let value_a = read_u64_le(instruction_data, 1);
        let value_b = read_u64_le(instruction_data, 9);
        process_calculate(accounts, value_a, value_b)
    } else {
        Err(ProgramError::InvalidInstructionData)
    }
}

} // verus!
