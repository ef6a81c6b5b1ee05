//! A call to another program that only goes to the system program, because the
//! target must be that program's executable account.
use crate::framework::{check_program, Error, ErrorCode, Instruction, NoProgramError, SYSTEM_PROGRAM_ID};
use crate::runtime::{AccountInfo, Pubkey};
use vstd::prelude::*;

verus! {

/// The program's address, `Grv8BFhBmJTMXHWM5Hg1uR6gsZ39wqvkf6RVuqTavRaN`.
pub const ID: Pubkey = [
    235, 168, 212, 171, 122, 226, 27, 223, 88, 207, 4, 230, 112, 22, 8, 28, 14, 90, 216, 148, 232,
    202, 45, 96, 115, 237, 54, 139, 43, 90, 156, 135,
];

/// The bytes of `"Hello"`, the data of the call.
pub const HELLO: [u8; 5] = [72, 101, 108, 108, 111];

/// The event a call emits: the program called.
#[derive(Clone, Copy, Debug, PartialEq, Eq)]
pub struct CpiExecuted {
    pub target: Pubkey,
}

pub struct CpiLog {
    pub target_program: AccountInfo,
}

/// Builds the call to the target program, which must be the executable system
/// program; the caller invokes the returned instruction.
pub fn cpi_log(ctx: &CpiLog) -> (r: Result<(Instruction, CpiExecuted), Error<NoProgramError>>)
    ensures
        ctx.target_program.key@ != SYSTEM_PROGRAM_ID@
            ==> r == Err::<(Instruction, CpiExecuted), Error<NoProgramError>>(Error::Anchor(ErrorCode::InvalidProgramId)),
        ctx.target_program.key@ == SYSTEM_PROGRAM_ID@ && !ctx.target_program.executable
            ==> r == Err::<(Instruction, CpiExecuted), Error<NoProgramError>>(Error::Anchor(ErrorCode::InvalidProgramExecutable)),
        ctx.target_program.key@ == SYSTEM_PROGRAM_ID@ && ctx.target_program.executable ==> {
            &&& r matches Ok((ix, event))
            &&& ix.program_id == SYSTEM_PROGRAM_ID
            &&& ix.accounts@.len() == 0
            &&& ix.data@ == HELLO@
            &&& event == (CpiExecuted { target: ctx.target_program.key })
        },
{
    check_program(&ctx.target_program, &SYSTEM_PROGRAM_ID)?;
    Ok((
        Instruction { program_id: ctx.target_program.key, accounts: Vec::new(), data: crate::framework::seed(&HELLO) },
        CpiExecuted { target: ctx.target_program.key },
    ))
}

} // verus!
