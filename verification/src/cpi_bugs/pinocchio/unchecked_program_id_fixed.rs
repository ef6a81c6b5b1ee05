//! A call that goes ahead only when the target account is the executable token
//! program.
use crate::bytes::keys_eq;
use crate::runtime::{AccountInfo, ProgramError, Pubkey};
use vstd::prelude::*;

verus! {

pub const INVOKE_CPI: u8 = 0;

/// The token program's address, `TokenkegQfeZyiNwAJbNbGKPFXCWuBvf9Ss623VQ5DA`.
pub const TOKEN_PROGRAM_ID: Pubkey = [
    6, 221, 246, 225, 215, 101, 161, 147, 217, 203, 225, 70, 206, 235, 121, 172, 28, 180, 133, 237,
    95, 91, 55, 145, 58, 140, 245, 133, 126, 255, 0, 169,
];

/// What `process_cpi` answers: a wrong number of accounts, an unsigned caller, a
/// target other than the token program or a target that is not executable is
/// refused, in that order.
pub open spec fn cpi_result(accounts: Seq<AccountInfo>) -> Result<(), ProgramError> {
    if accounts.len() != 2 {
        Err(ProgramError::NotEnoughAccountKeys)
    } else if !accounts[1].is_signer {
        Err(ProgramError::MissingRequiredSignature)
    } else if accounts[0].key@ != TOKEN_PROGRAM_ID@ {
        Err(ProgramError::IncorrectProgramId)
    } else if !accounts[0].executable {
        Err(ProgramError::InvalidAccountData)
    } else {
        Ok(())
    }
}

pub fn process_cpi(accounts: &[AccountInfo]) -> (r: Result<(), ProgramError>)
    ensures
        r == cpi_result(accounts@),
{
    if accounts.len() != 2 {
        return Err(ProgramError::NotEnoughAccountKeys);
    }
    if !accounts[1].is_signer {
        return Err(ProgramError::MissingRequiredSignature);
    }
    if !keys_eq(&accounts[0].key, &TOKEN_PROGRAM_ID) {
        return Err(ProgramError::IncorrectProgramId);
    }
    if !accounts[0].executable {
        return Err(ProgramError::InvalidAccountData);
    }
    Ok(())
}

/// Decodes the instruction tag and runs the instruction.
pub fn process_instruction(program_id: &Pubkey, accounts: &[AccountInfo], instruction_data: &[u8]) -> (r: Result<(), ProgramError>)
    ensures
        instruction_data@.len() == 0 || instruction_data@[0] != INVOKE_CPI
            ==> r == Err::<(), ProgramError>(ProgramError::InvalidInstructionData),
        instruction_data@.len() > 0 && instruction_data@[0] == INVOKE_CPI ==> r == cpi_result(accounts@),
{
    if instruction_data.len() == 0 {
        return Err(ProgramError::InvalidInstructionData);
    }
    if instruction_data[0] == INVOKE_CPI {
        process_cpi(accounts)
    } else {
        Err(ProgramError::InvalidInstructionData)
    }
}

} // verus!
