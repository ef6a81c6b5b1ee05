//! A call that goes ahead whatever account is passed as the target program.
use crate::runtime::{AccountInfo, ProgramError, Pubkey};
use vstd::prelude::*;

verus! {

pub const INVOKE_CPI: u8 = 0;

/// What `process_cpi` answers: a wrong number of accounts or an unsigned caller
/// is refused; the target account is never looked at.
pub open spec fn cpi_result(accounts: Seq<AccountInfo>) -> Result<(), ProgramError> {
    if accounts.len() != 2 {
        Err(ProgramError::NotEnoughAccountKeys)
    } else if !accounts[1].is_signer {
        Err(ProgramError::MissingRequiredSignature)
    } else {
        Ok(())
    }
}

pub fn process_cpi(accounts: &[AccountInfo]) -> (r: Result<(), ProgramError>)
    ensures
        r == cpi_result(accounts@),
{
    if accounts.len() != 2 {
        return Err(ProgramError::NotEnoughAccountKeys);
    }
    if !accounts[1].is_signer {
        return Err(ProgramError::MissingRequiredSignature);
    }
    Ok(())
}

/// Decodes the instruction tag and runs the instruction.
pub fn process_instruction(program_id: &Pubkey, accounts: &[AccountInfo], instruction_data: &[u8]) -> (r: Result<(), ProgramError>)
    ensures
        instruction_data@.len() == 0 || instruction_data@[0] != INVOKE_CPI
            ==> r == Err::<(), ProgramError>(ProgramError::InvalidInstructionData),
        instruction_data@.len() > 0 && instruction_data@[0] == INVOKE_CPI ==> r == cpi_result(accounts@),
{
    if instruction_data.len() == 0 {
        return Err(ProgramError::InvalidInstructionData);
    }
    if instruction_data[0] == INVOKE_CPI {
        process_cpi(accounts)
    } else {
        Err(ProgramError::InvalidInstructionData)
    }
}

} // verus!
