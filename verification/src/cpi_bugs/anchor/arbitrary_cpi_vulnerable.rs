//! A signer at a derived address that signs whatever call the caller describes:
//! any program, any data, with the derived signer as a signing account.
use crate::framework::{
    check_seeds, is_pda, pda_bump, seed_list1, AccountMeta, Error, ErrorCode, Instruction, NoProgramError,
};
use crate::runtime::{AccountInfo, Pubkey};
use vstd::prelude::*;

verus! {

/// The program's address, `9ZCkE1ngX2RrFHgMeZQ16kCEbPg3bgsKpvGY1T38ncW4`.
pub const ID: Pubkey = [
    127, 29, 92, 152, 15, 41, 200, 239, 92, 40, 122, 26, 88, 54, 188, 83, 8, 93, 12, 212, 227, 251,
    51, 117, 223, 44, 149, 203, 36, 241, 229, 185,
];

/// The bytes of `"signer"`.
pub const SIGNER_SEED: [u8; 6] = [115, 105, 103, 110, 101, 114];

pub struct ProxiedCpi {
    pub pda_signer: AccountInfo,
    pub destination: AccountInfo,
    pub target_program: AccountInfo,
}

/// The event a proxied call emits: the program called and the destination.
#[derive(Clone, Copy, Debug, PartialEq, Eq)]
pub struct ArbitraryCpiExecuted {
    pub target: Pubkey,
    pub destination: Pubkey,
}

/// The instruction `proxied_cpi` asks the runtime to invoke, signed for the
/// derived signer with its seed followed by `signer_bump`, and the event
/// emitted once it ran.
#[derive(Clone, Debug, PartialEq, Eq)]
pub struct SignedCall {
    pub instruction: Instruction,
    pub signer_bump: u8,
    pub event: ArbitraryCpiExecuted,
}

/// Builds the caller's call: the target program with the caller's data, naming
/// the derived signer (signing, writable) and the destination (writable); the
/// only check is that the signer is at its derived address.
pub fn proxied_cpi(ctx: &ProxiedCpi, data: Vec<u8>) -> (r: Result<SignedCall, Error<NoProgramError>>)
    ensures
        !is_pda(ctx.pda_signer.key@, seq![SIGNER_SEED@], ID@)
            ==> r == Err::<SignedCall, Error<NoProgramError>>(Error::Anchor(ErrorCode::ConstraintSeeds)),
        is_pda(ctx.pda_signer.key@, seq![SIGNER_SEED@], ID@) ==> {
            &&& r matches Ok(call)
            &&& call.signer_bump == pda_bump(seq![SIGNER_SEED@], ID@)
            &&& call.instruction.program_id == ctx.target_program.key
            &&& call.instruction.accounts@ == seq![
                AccountMeta { pubkey: ctx.pda_signer.key, is_signer: true, is_writable: true },
                AccountMeta { pubkey: ctx.destination.key, is_signer: false, is_writable: true },
            ]
            &&& call.instruction.data@ == data@
            &&& call.event == (ArbitraryCpiExecuted { target: ctx.target_program.key, destination: ctx.destination.key })
        },
{
    let bump = check_seeds(&ctx.pda_signer.key, &seed_list1(&SIGNER_SEED), &ID)?;
    let mut accounts: Vec<AccountMeta> = Vec::new();
    accounts.push(AccountMeta { pubkey: ctx.pda_signer.key, is_signer: true, is_writable: true });
    accounts.push(AccountMeta { pubkey: ctx.destination.key, is_signer: false, is_writable: true });
    Ok(SignedCall {
        instruction: Instruction { program_id: ctx.target_program.key, accounts, data },
        signer_bump: bump,
        event: ArbitraryCpiExecuted { target: ctx.target_program.key, destination: ctx.destination.key },
    })
}

} // verus!
