//! A configuration kept in raw account bytes with no initialized flag:
//! initialization always overwrites the owner, so anyone can take it over.
//! Layout: owner at 0..32, value (little-endian) at 32..40.
use crate::bytes::{bytes_at, bytes_eq_key, keys_eq, le_u64_at, put_bytes, put_u64, write_bytes, write_u64_le};
use crate::framework::seed_list1;
use crate::outside::{derived_address, try_find_program_address};
use crate::runtime::{account_is, AccountInfo, ProgramError, Pubkey};
use vstd::prelude::*;

verus! {

pub const INITIALIZE: u8 = 0;
pub const UPDATE_VALUE: u8 = 1;
pub const WITHDRAW: u8 = 2;

pub const OWNER_OFFSET: usize = 0;
pub const VALUE_OFFSET: usize = 32;
pub const CONFIG_SIZE: usize = 40;

/// The lamports a configuration keeps for rent exemption.
pub const RENT_EXEMPT: u64 = 890880;

/// The bytes of `"config"`.
pub const CONFIG_SEED: [u8; 6] = [99, 111, 110, 102, 105, 103];

pub open spec fn stored_owner(data: Seq<u8>) -> Seq<u8> {
    bytes_at(data, OWNER_OFFSET as int, 32)
}

/// Whether `key` is the configuration's derived address.
pub open spec fn at_config_address(key: Seq<u8>, program_id: Seq<u8>) -> bool {
    derived_address(seq![CONFIG_SEED@], program_id) matches Some(found) && found.0 == key
}

/// What `process_initialize` does: refuses a wrong number of accounts, an unsigned
/// payer or a configuration away from its address; otherwise writes the payer as
/// owner and the value, whatever the account held before.
pub open spec fn initialize_spec(program_id: Seq<u8>, old: Seq<AccountInfo>, new: Seq<AccountInfo>, value: u64, r: Result<(), ProgramError>) -> bool {
    if old.len() != 3 {
        r == Err::<(), ProgramError>(ProgramError::NotEnoughAccountKeys) && new == old
    } else if !old[1].is_signer {
        r == Err::<(), ProgramError>(ProgramError::MissingRequiredSignature) && new == old
    } else if !at_config_address(old[0].key@, program_id) {
        r == Err::<(), ProgramError>(ProgramError::InvalidSeeds) && new == old
    } else {
        let written = put_u64(put_bytes(old[0].data@, 0, old[1].key@), 32, value);
        &&& r is Ok
        &&& new.len() == 3
        &&& account_is(new[0], old[0], old[0].lamports, written)
        &&& new[1] == old[1]
        &&& new[2] == old[2]
    }
}

/// Whether the configuration's bytes are long enough wherever an instruction with
/// `n` accounts reads or writes them after its signer check.
pub open spec fn config_sized(accounts: Seq<AccountInfo>, n: int) -> bool {
    accounts.len() == n && accounts[1].is_signer ==> accounts[0].data@.len() >= CONFIG_SIZE
}

pub fn process_initialize(program_id: &Pubkey, accounts: &mut Vec<AccountInfo>, value: u64) -> (r: Result<(), ProgramError>)
    requires
        config_sized(old(accounts)@, 3),
    ensures
        initialize_spec(program_id@, old(accounts)@, final(accounts)@, value, r),
{
    if accounts.len() != 3 {
        return Err(ProgramError::NotEnoughAccountKeys);
    }
    if !accounts[1].is_signer {
        return Err(ProgramError::MissingRequiredSignature);
    }
    let expected = match try_find_program_address(&seed_list1(&CONFIG_SEED), program_id) {
        Some(found) => found.0,
        None => { return Err(ProgramError::InvalidSeeds); },
    };
    if !keys_eq(&accounts[0].key, &expected) {
        return Err(ProgramError::InvalidSeeds);
    }
    let payer = accounts[1].key;
    write_bytes(&mut accounts[0].data, OWNER_OFFSET, &payer);
    write_u64_le(&mut accounts[0].data, VALUE_OFFSET, value);
    Ok(())
}

/// What `process_update_value` does: refuses a wrong number of accounts, an
/// unsigned owner or a signer other than the stored owner; otherwise writes the value.
pub open spec fn update_value_spec(old: Seq<AccountInfo>, new: Seq<AccountInfo>, value: u64, r: Result<(), ProgramError>) -> bool {
    if old.len() != 2 {
        r == Err::<(), ProgramError>(ProgramError::NotEnoughAccountKeys) && new == old
    } else if !old[1].is_signer {
        r == Err::<(), ProgramError>(ProgramError::MissingRequiredSignature) && new == old
    } else if stored_owner(old[0].data@) != old[1].key@ {
        r == Err::<(), ProgramError>(ProgramError::InvalidAccountData) && new == old
    } else {
        &&& r is Ok
        &&& new.len() == 2
        &&& account_is(new[0], old[0], old[0].lamports, put_u64(old[0].data@, 32, value))
        &&& new[1] == old[1]
    }
}

pub fn process_update_value(accounts: &mut Vec<AccountInfo>, new_value: u64) -> (r: Result<(), ProgramError>)
    requires
        config_sized(old(accounts)@, 2),
    ensures
        update_value_spec(old(accounts)@, final(accounts)@, new_value, r),
{
    if accounts.len() != 2 {
        return Err(ProgramError::NotEnoughAccountKeys);
    }
    if !accounts[1].is_signer {
        return Err(ProgramError::MissingRequiredSignature);
    }
    let owner = accounts[1].key;
    if !bytes_eq_key(&accounts[0].data, OWNER_OFFSET, &owner) {
        return Err(ProgramError::InvalidAccountData);
    }
    write_u64_le(&mut accounts[0].data, VALUE_OFFSET, new_value);
    Ok(())
}

/// The lamports `process_withdraw` takes: all above the rent-exempt amount.
pub open spec fn withdrawable(lamports: u64) -> u64 {
    if lamports > RENT_EXEMPT { (lamports - RENT_EXEMPT) as u64 } else { 0 }
}

/// What `process_withdraw` does: the checks of `process_update_value`, then every
/// lamport above the rent-exempt amount moves to the stored owner.
pub open spec fn withdraw_spec(old: Seq<AccountInfo>, new: Seq<AccountInfo>, r: Result<(), ProgramError>) -> bool {
    if old.len() != 2 {
        r == Err::<(), ProgramError>(ProgramError::NotEnoughAccountKeys) && new == old
    } else if !old[1].is_signer {
        r == Err::<(), ProgramError>(ProgramError::MissingRequiredSignature) && new == old
    } else if stored_owner(old[0].data@) != old[1].key@ {
        r == Err::<(), ProgramError>(ProgramError::InvalidAccountData) && new == old
    } else {
        let w = withdrawable(old[0].lamports);
        &&& r is Ok
        &&& new.len() == 2
        &&& account_is(new[0], old[0], (old[0].lamports - w) as u64, old[0].data@)
        &&& account_is(new[1], old[1], (old[1].lamports + w) as u64, old[1].data@)
    }
}

/// Whether `process_withdraw` runs without a panic.
pub open spec fn withdraw_safe(accounts: Seq<AccountInfo>) -> bool {
    &&& config_sized(accounts, 2)
    &&& accounts.len() == 2 ==> accounts[1].lamports + withdrawable(accounts[0].lamports) <= u64::MAX
}

pub fn process_withdraw(accounts: &mut Vec<AccountInfo>) -> (r: Result<(), ProgramError>)
    requires
        withdraw_safe(old(accounts)@),
    ensures
        withdraw_spec(old(accounts)@, final(accounts)@, r),
{
    if accounts.len() != 2 {
        return Err(ProgramError::NotEnoughAccountKeys);
    }
    if !accounts[1].is_signer {
        return Err(ProgramError::MissingRequiredSignature);
    }
    let owner = accounts[1].key;
    if !bytes_eq_key(&accounts[0].data, OWNER_OFFSET, &owner) {
        return Err(ProgramError::InvalidAccountData);
    }
    let withdrawable = accounts[0].lamports.saturating_sub(RENT_EXEMPT);
    accounts[0].lamports = accounts[0].lamports - withdrawable;
    accounts[1].lamports = accounts[1].lamports + withdrawable;
    Ok(())
}

/// The value an initialization or update carries at bytes 1..9.
pub open spec fn instruction_value(data: Seq<u8>) -> u64 {
    le_u64_at(data, 1)
}

/// Decodes the instruction tag (and value) and runs the instruction.
pub fn process_instruction(program_id: &Pubkey, accounts: &mut Vec<AccountInfo>, instruction_data: &[u8]) -> (r: Result<(), ProgramError>)
    requires
        instruction_data@.len() > 0 && (instruction_data@[0] == INITIALIZE || instruction_data@[0] == UPDATE_VALUE)
            ==> instruction_data@.len() >= 9,
        instruction_data@.len() > 0 && instruction_data@[0] == INITIALIZE ==> config_sized(old(accounts)@, 3),
        instruction_data@.len() > 0 && instruction_data@[0] == UPDATE_VALUE ==> config_sized(old(accounts)@, 2),
        instruction_data@.len() > 0 && instruction_data@[0] == WITHDRAW ==> withdraw_safe(old(accounts)@),
    ensures
        instruction_data@.len() == 0 || instruction_data@[0] > WITHDRAW
            ==> r == Err::<(), ProgramError>(ProgramError::InvalidInstructionData) && final(accounts)@ == old(accounts)@,
        instruction_data@.len() > 0 && instruction_data@[0] == INITIALIZE
            ==> initialize_spec(program_id@, old(accounts)@, final(accounts)@, instruction_value(instruction_data@), r),
        instruction_data@.len() > 0 && instruction_data@[0] == UPDATE_VALUE
            ==> update_value_spec(old(accounts)@, final(accounts)@, instruction_value(instruction_data@), r),
        instruction_data@.len() > 0 && instruction_data@[0] == WITHDRAW ==> withdraw_spec(old(accounts)@, final(accounts)@, r),
{
    if instruction_data.len() == 0 {
        return Err(ProgramError::InvalidInstructionData);
    }
    let tag = instruction_data[0];
    if tag == INITIALIZE {
        let value = crate::bytes::read_u64_le(instruction_data, 1);
        process_initialize(program_id, accounts, value)
    } else if tag == UPDATE_VALUE {
        let value = crate::bytes::read_u64_le(instruction_data, 1);
        process_update_value(accounts, value)
    } else if tag == WITHDRAW {
        process_withdraw(accounts)
    } else {
        Err(ProgramError::InvalidInstructionData)
    }
}

/// Any signing payer takes an existing configuration over: a signed
/// initialization at the configuration's address stores the payer as owner,
/// whoever owned it before.
pub proof fn any_payer_takes_over(program_id: Seq<u8>, old: Seq<AccountInfo>, new: Seq<AccountInfo>, value: u64, r: Result<(), ProgramError>)
    requires
        initialize_spec(program_id, old, new, value, r),
        old.len() == 3,
        old[1].is_signer,
        at_config_address(old[0].key@, program_id),
        old[0].data@.len() >= CONFIG_SIZE,
    ensures
        r is Ok,
        stored_owner(new[0].data@) == old[1].key@,
{
    let data = put_bytes(old[0].data@, 0, old[1].key@);
    crate::bytes::lemma_put_u64(data, 32, value);
    assert(stored_owner(new[0].data@) =~= stored_owner(data));
    assert(stored_owner(data) =~= old[1].key@);
}

} // verus!
