//! An upgrade authority in raw account bytes that only the current authority,
//! signing, can replace.
//! Layout: upgrade authority at 0..32.
use crate::bytes::{bytes_at, bytes_eq_key, put_bytes, read_key, write_bytes};
use crate::runtime::{account_is, AccountInfo, ProgramError, Pubkey};
use vstd::prelude::*;

verus! {

pub const SET_UPGRADE_AUTHORITY: u8 = 0;
pub const UPGRADE_AUTHORITY_OFFSET: usize = 0;

/// The authority stored in program data bytes.
pub open spec fn stored_authority(data: Seq<u8>) -> Seq<u8> {
    bytes_at(data, UPGRADE_AUTHORITY_OFFSET as int, 32)
}

/// What `process_set_authority` does: refuses a wrong number of accounts, an
/// unsigned caller or a caller other than the stored authority; otherwise
/// stores the new authority.
pub open spec fn set_authority_spec(old: Seq<AccountInfo>, new: Seq<AccountInfo>, new_authority: Pubkey, r: Result<(), ProgramError>) -> bool {
    if old.len() != 2 {
        r == Err::<(), ProgramError>(ProgramError::NotEnoughAccountKeys) && new == old
    } else if !old[1].is_signer {
        r == Err::<(), ProgramError>(ProgramError::MissingRequiredSignature) && new == old
    } else if stored_authority(old[0].data@) != old[1].key@ {
        r == Err::<(), ProgramError>(ProgramError::InvalidAccountData) && new == old
    } else {
        &&& r is Ok
        &&& new.len() == 2
        &&& account_is(new[0], old[0], old[0].lamports, put_bytes(old[0].data@, 0, new_authority@))
        &&& new[1] == old[1]
    }
}

/// Whether the program data bytes hold an authority wherever it is read.
pub open spec fn authority_sized(accounts: Seq<AccountInfo>) -> bool {
    accounts.len() == 2 && accounts[1].is_signer ==> accounts[0].data@.len() >= 32
}

pub fn process_set_authority(accounts: &mut Vec<AccountInfo>, new_authority: &Pubkey) -> (r: Result<(), ProgramError>)
    requires
        authority_sized(old(accounts)@),
    ensures
        set_authority_spec(old(accounts)@, final(accounts)@, *new_authority, r),
{
    if accounts.len() != 2 {
        return Err(ProgramError::NotEnoughAccountKeys);
    }
    if !accounts[1].is_signer {
        return Err(ProgramError::MissingRequiredSignature);
    }
    let caller = accounts[1].key;
    if !bytes_eq_key(&accounts[0].data, UPGRADE_AUTHORITY_OFFSET, &caller) {
        return Err(ProgramError::InvalidAccountData);
    }
    write_bytes(&mut accounts[0].data, UPGRADE_AUTHORITY_OFFSET, new_authority);
    Ok(())
}

/// Decodes the instruction (tag, then the new authority at bytes 1..33) and
/// runs it; data shorter than 33 bytes is refused.
pub fn process_instruction(program_id: &Pubkey, accounts: &mut Vec<AccountInfo>, instruction_data: &[u8]) -> (r: Result<(), ProgramError>)
    requires
        instruction_data@.len() >= 33 && instruction_data@[0] == SET_UPGRADE_AUTHORITY ==> authority_sized(old(accounts)@),
    ensures
        instruction_data@.len() < 33 || instruction_data@[0] != SET_UPGRADE_AUTHORITY
            ==> r == Err::<(), ProgramError>(ProgramError::InvalidInstructionData) && final(accounts)@ == old(accounts)@,
        instruction_data@.len() >= 33 && instruction_data@[0] == SET_UPGRADE_AUTHORITY ==> exists|k: Pubkey|
            k@ == bytes_at(instruction_data@, 1, 32) && set_authority_spec(old(accounts)@, final(accounts)@, k, r),
{
    if instruction_data.len() < 33 {
        return Err(ProgramError::InvalidInstructionData);
    }
    if instruction_data[0] == SET_UPGRADE_AUTHORITY {
        let new_authority = read_key(instruction_data, 1);
        process_set_authority(accounts, &new_authority)
    } else {
        Err(ProgramError::InvalidInstructionData)
    }
}

/// Once stored, the authority changes only by a call signed by that authority:
/// every call from another account leaves the program data as it was.
pub proof fn only_the_authority_replaces_itself(old: Seq<AccountInfo>, new: Seq<AccountInfo>, new_authority: Pubkey, r: Result<(), ProgramError>)
    requires
        set_authority_spec(old, new, new_authority, r),
        old.len() == 2,
        !(old[1].is_signer && stored_authority(old[0].data@) == old[1].key@),
    ensures
        r is Err,
        new == old,
{
}

} // verus!
