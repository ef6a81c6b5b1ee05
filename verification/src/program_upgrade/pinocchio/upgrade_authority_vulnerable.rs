//! An upgrade authority in raw account bytes that any signer can replace.
//! Layout: upgrade authority at 0..32.
use crate::bytes::{bytes_at, put_bytes, read_key, write_bytes};
use crate::runtime::{account_is, AccountInfo, ProgramError, Pubkey};
use vstd::prelude::*;

verus! {

pub const SET_UPGRADE_AUTHORITY: u8 = 0;
pub const UPGRADE_AUTHORITY_OFFSET: usize = 0;

/// The authority stored in program data bytes.
pub open spec fn stored_authority(data: Seq<u8>) -> Seq<u8> {
    bytes_at(data, UPGRADE_AUTHORITY_OFFSET as int, 32)
}

/// What `process_set_authority` does: refuses a wrong number of accounts or an
/// unsigned caller; otherwise stores the new authority, whoever the caller is.
pub open spec fn set_authority_spec(old: Seq<AccountInfo>, new: Seq<AccountInfo>, new_authority: Pubkey, r: Result<(), ProgramError>) -> bool {
    if old.len() != 2 {
        r == Err::<(), ProgramError>(ProgramError::NotEnoughAccountKeys) && new == old
    } else if !old[1].is_signer {
        r == Err::<(), ProgramError>(ProgramError::MissingRequiredSignature) && new == old
    } else {
        &&& r is Ok
        &&& new.len() == 2
        &&& account_is(new[0], old[0], old[0].lamports, put_bytes(old[0].data@, 0, new_authority@))
        &&& new[1] == old[1]
    }
}

/// Whether the program data bytes hold an authority wherever it is read.
pub open spec fn authority_sized(accounts: Seq<AccountInfo>) -> bool {
    accounts.len() == 2 && accounts[1].is_signer ==> accounts[0].data@.len() >= 32
}

pub fn process_set_authority(accounts: &mut Vec<AccountInfo>, new_authority: &Pubkey) -> (r: Result<(), ProgramError>)
    requires
        authority_sized(old(accounts)@),
    ensures
        set_authority_spec(old(accounts)@, final(accounts)@, *new_authority, r),
{
    if accounts.len() != 2 {
        return Err(ProgramError::NotEnoughAccountKeys);
    }
    if !accounts[1].is_signer {
        return Err(ProgramError::MissingRequiredSignature);
    }
    write_bytes(&mut accounts[0].data, UPGRADE_AUTHORITY_OFFSET, new_authority);
    Ok(())
}

/// Decodes the instruction (tag, then the new authority at bytes 1..33) and
/// runs it; data shorter than 33 bytes is refused.
pub fn process_instruction(program_id: &Pubkey, accounts: &mut Vec<AccountInfo>, instruction_data: &[u8]) -> (r: Result<(), ProgramError>)
    requires
        instruction_data@.len() >= 33 && instruction_data@[0] == SET_UPGRADE_AUTHORITY ==> authority_sized(old(accounts)@),
    ensures
        instruction_data@.len() < 33 || instruction_data@[0] != SET_UPGRADE_AUTHORITY
            ==> r == Err::<(), ProgramError>(ProgramError::InvalidInstructionData) && final(accounts)@ == old(accounts)@,
        instruction_data@.len() >= 33 && instruction_data@[0] == SET_UPGRADE_AUTHORITY ==> exists|k: Pubkey|
            k@ == bytes_at(instruction_data@, 1, 32) && set_authority_spec(old(accounts)@, final(accounts)@, k, r),
{
    if instruction_data.len() < 33 {
        return Err(ProgramError::InvalidInstructionData);
    }
    if instruction_data[0] == SET_UPGRADE_AUTHORITY {
        let new_authority = read_key(instruction_data, 1);
        process_set_authority(accounts, &new_authority)
    } else {
        Err(ProgramError::InvalidInstructionData)
    }
}

/// Any signer takes the authority over: a signed call with the right accounts
/// stores the new authority, whatever authority was stored before.
pub proof fn any_signer_replaces_the_authority(old: Seq<AccountInfo>, new: Seq<AccountInfo>, new_authority: Pubkey, r: Result<(), ProgramError>)
    requires
        set_authority_spec(old, new, new_authority, r),
        old.len() == 2,
        old[1].is_signer,
        old[0].data@.len() >= 32,
    ensures
        r is Ok,
        stored_authority(new[0].data@) == new_authority@,
{
    assert(stored_authority(new[0].data@) =~= new_authority@);
}

} // verus!
