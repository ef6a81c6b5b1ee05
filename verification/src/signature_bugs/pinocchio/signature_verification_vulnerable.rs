//! An instruction that takes a signature and a message and goes ahead without
//! verifying either.
use crate::runtime::{AccountInfo, ProgramError, Pubkey};
use vstd::prelude::*;

verus! {

pub const VERIFY_AND_EXECUTE: u8 = 0;

/// What `process_verify_and_execute` returns: it needs two accounts, and a
/// 64-byte signature followed by at least 32 bytes of message; nothing is verified.
pub open spec fn verify_and_execute_result(accounts: Seq<AccountInfo>, data: Seq<u8>) -> Result<(), ProgramError> {
    if accounts.len() != 2 {
        Err(ProgramError::NotEnoughAccountKeys)
    } else if data.len() < 96 {
        Err(ProgramError::InvalidInstructionData)
    } else {
        Ok(())
    }
}

pub fn process_verify_and_execute(accounts: &Vec<AccountInfo>, data: &[u8]) -> (r: Result<(), ProgramError>)
    ensures
        r == verify_and_execute_result(accounts@, data@),
{
    if accounts.len() != 2 {
        return Err(ProgramError::NotEnoughAccountKeys);
    }
    if data.len() < 96 {
        return Err(ProgramError::InvalidInstructionData);
    }
    Ok(())
}

/// Runs the single instruction on the data after its tag.
pub fn process_instruction(program_id: &Pubkey, accounts: &Vec<AccountInfo>, instruction_data: &[u8]) -> (r: Result<(), ProgramError>)
    ensures
        instruction_data@.len() == 0 || instruction_data@[0] != VERIFY_AND_EXECUTE
            ==> r == Err::<(), ProgramError>(ProgramError::InvalidInstructionData),
        instruction_data@.len() > 0 && instruction_data@[0] == VERIFY_AND_EXECUTE
            ==> r == verify_and_execute_result(accounts@, instruction_data@.subrange(1, instruction_data@.len() as int)),
{
    if instruction_data.len() == 0 {
        return Err(ProgramError::InvalidInstructionData);
    }
    if instruction_data[0] == VERIFY_AND_EXECUTE {
        let rest = slice_from(instruction_data, 1);
        process_verify_and_execute(accounts, rest)
    } else {
        Err(ProgramError::InvalidInstructionData)
    }
}

/// `data[start..]`.
pub fn slice_from(data: &[u8], start: usize) -> (s: &[u8])
    requires
        start <= data@.len(),
    ensures
        s@ == data@.subrange(start as int, data@.len() as int),
{
    let (_, tail) = data.split_at(start);
    tail
}

} // verus!
