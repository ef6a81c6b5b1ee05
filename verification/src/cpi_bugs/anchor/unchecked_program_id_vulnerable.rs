//! A call to another program that goes to whatever account the caller passes
//! as the target.
use crate::framework::{Error, Instruction, NoProgramError};
use crate::runtime::{AccountInfo, Pubkey};
use vstd::prelude::*;

verus! {

/// The program's address, `GJsiEMJS2dR8nrMxHPXiGmHTb2Sh5iQUiv8vdLf2ie39`.
pub const ID: Pubkey = [
    227, 115, 132, 64, 99, 14, 12, 45, 88, 80, 38, 149, 223, 18, 175, 176, 154, 199, 157, 254, 253,
    76, 136, 183, 219, 218, 116, 255, 58, 164, 193, 168,
];

/// The bytes of `"Hello"`, the data of the call.
pub const HELLO: [u8; 5] = [72, 101, 108, 108, 111];

/// The event a call emits: the program called.
#[derive(Clone, Copy, Debug, PartialEq, Eq)]
pub struct CpiExecuted {
    pub target: Pubkey,
}

pub struct CpiLog {
    pub target_program: AccountInfo,
}

/// Builds the call to the target program, whichever account that is; the
/// caller invokes the returned instruction.
pub fn cpi_log(ctx: &CpiLog) -> (r: Result<(Instruction, CpiExecuted), Error<NoProgramError>>)
    ensures
        r matches Ok((ix, event)) && {
            &&& ix.program_id == ctx.target_program.key
            &&& ix.accounts@.len() == 0
            &&& ix.data@ == HELLO@
            &&& event == (CpiExecuted { target: ctx.target_program.key })
        },
{
    Ok((
        Instruction { program_id: ctx.target_program.key, accounts: Vec::new(), data: crate::framework::seed(&HELLO) },
        CpiExecuted { target: ctx.target_program.key },
    ))
}

} // verus!
