//! A fee and a multiplier in raw account bytes, stored as given, with no bounds.
//! Layout: fee in basis points (`u16`) at 0..2, multiplier (`u64`) at 2..10.
use crate::bytes::{le_u16_at, le_u64_at, put_u16, put_u64, read_u16_le, read_u64_le, write_u16_le, write_u64_le};
use crate::runtime::{account_is, AccountInfo, ProgramError, Pubkey};
use vstd::prelude::*;

verus! {

pub const SET_FEE: u8 = 0;
pub const SET_MULTIPLIER: u8 = 1;

pub const FEE_BPS_OFFSET: usize = 0;
pub const MULTIPLIER_OFFSET: usize = 2;

/// What `process_set_fee` does: refuses a wrong number of accounts or an
/// unsigned admin; otherwise stores the fee, whatever its size.
pub open spec fn set_fee_spec(old: Seq<AccountInfo>, new: Seq<AccountInfo>, fee_bps: u16, r: Result<(), ProgramError>) -> bool {
    if old.len() != 2 {
        r == Err::<(), ProgramError>(ProgramError::NotEnoughAccountKeys) && new == old
    } else if !old[1].is_signer {
        r == Err::<(), ProgramError>(ProgramError::MissingRequiredSignature) && new == old
    } else {
        &&& r is Ok
        &&& new.len() == 2
        &&& account_is(new[0], old[0], old[0].lamports, put_u16(old[0].data@, 0, fee_bps))
        &&& new[1] == old[1]
    }
}

/// Whether the configuration's bytes reach `end` wherever an instruction writes
/// them after its checks.
pub open spec fn config_reaches(accounts: Seq<AccountInfo>, end: int) -> bool {
    accounts.len() == 2 && accounts[1].is_signer ==> accounts[0].data@.len() >= end
}

pub fn process_set_fee(accounts: &mut Vec<AccountInfo>, fee_bps: u16) -> (r: Result<(), ProgramError>)
    requires
        config_reaches(old(accounts)@, FEE_BPS_OFFSET + 2),
    ensures
        set_fee_spec(old(accounts)@, final(accounts)@, fee_bps, r),
{
    if accounts.len() != 2 {
        return Err(ProgramError::NotEnoughAccountKeys);
    }
    if !accounts[1].is_signer {
        return Err(ProgramError::MissingRequiredSignature);
    }
    write_u16_le(&mut accounts[0].data, FEE_BPS_OFFSET, fee_bps);
    Ok(())
}

/// What `process_set_multiplier` does: refuses a wrong number of accounts or an
/// unsigned admin; otherwise stores the multiplier, zero or however large.
pub open spec fn set_multiplier_spec(old: Seq<AccountInfo>, new: Seq<AccountInfo>, multiplier: u64, r: Result<(), ProgramError>) -> bool {
    if old.len() != 2 {
        r == Err::<(), ProgramError>(ProgramError::NotEnoughAccountKeys) && new == old
    } else if !old[1].is_signer {
        r == Err::<(), ProgramError>(ProgramError::MissingRequiredSignature) && new == old
    } else {
        &&& r is Ok
        &&& new.len() == 2
        &&& account_is(new[0], old[0], old[0].lamports, put_u64(old[0].data@, 2, multiplier))
        &&& new[1] == old[1]
    }
}

pub fn process_set_multiplier(accounts: &mut Vec<AccountInfo>, multiplier: u64) -> (r: Result<(), ProgramError>)
    requires
        config_reaches(old(accounts)@, MULTIPLIER_OFFSET + 8),
    ensures
        set_multiplier_spec(old(accounts)@, final(accounts)@, multiplier, r),
{
    if accounts.len() != 2 {
        return Err(ProgramError::NotEnoughAccountKeys);
    }
    if !accounts[1].is_signer {
        return Err(ProgramError::MissingRequiredSignature);
    }
    write_u64_le(&mut accounts[0].data, MULTIPLIER_OFFSET, multiplier);
    Ok(())
}

/// Decodes the instruction (tag, then the value at byte 1) and runs it; data
/// shorter than three bytes is refused.
pub fn process_instruction(program_id: &Pubkey, accounts: &mut Vec<AccountInfo>, instruction_data: &[u8]) -> (r: Result<(), ProgramError>)
    requires
        instruction_data@.len() >= 3 && instruction_data@[0] == SET_FEE ==> config_reaches(old(accounts)@, 2),
        instruction_data@.len() >= 3 && instruction_data@[0] == SET_MULTIPLIER ==> {
            &&& instruction_data@.len() >= 9
            &&& config_reaches(old(accounts)@, 10)
        },
    ensures
        instruction_data@.len() < 3 || instruction_data@[0] > SET_MULTIPLIER
            ==> r == Err::<(), ProgramError>(ProgramError::InvalidInstructionData) && final(accounts)@ == old(accounts)@,
        instruction_data@.len() >= 3 && instruction_data@[0] == SET_FEE
            ==> set_fee_spec(old(accounts)@, final(accounts)@, le_u16_at(instruction_data@, 1), r),
        instruction_data@.len() >= 3 && instruction_data@[0] == SET_MULTIPLIER
            ==> set_multiplier_spec(old(accounts)@, final(accounts)@, le_u64_at(instruction_data@, 1), r),
{
    if instruction_data.len() < 3 {
        return Err(ProgramError::InvalidInstructionData);
    }
    let tag = instruction_data[0];
    if tag == SET_FEE {
        let fee_bps = read_u16_le(instruction_data, 1);
        process_set_fee(accounts, fee_bps)
    } else if tag == SET_MULTIPLIER {
        let multiplier = read_u64_le(instruction_data, 1);
        process_set_multiplier(accounts, multiplier)
    } else {
        Err(ProgramError::InvalidInstructionData)
    }
}

} // verus!
