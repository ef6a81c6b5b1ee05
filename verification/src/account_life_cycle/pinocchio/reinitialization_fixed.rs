//! A configuration kept in raw account bytes with an initialized flag, so a
//! second initialization can only update the value, and only for the first owner.
//! Layout: flag at byte 0, owner at 1..33, value (little-endian) at 33..41.
use crate::bytes::{bytes_at, bytes_eq_key, keys_eq, le_u64_at, put_bytes, put_u64, write_bytes, write_u64_le};
use crate::framework::seed_list1;
use crate::outside::{derived_address, try_find_program_address};
use crate::runtime::{account_is, AccountInfo, ProgramError, Pubkey};
use vstd::prelude::*;

verus! {

pub const INITIALIZE: u8 = 0;
pub const UPDATE_VALUE: u8 = 1;
pub const WITHDRAW: u8 = 2;

pub const IS_INITIALIZED_OFFSET: usize = 0;
pub const OWNER_OFFSET: usize = 1;
pub const VALUE_OFFSET: usize = 33;
pub const CONFIG_SIZE: usize = 41;

/// The lamports a configuration keeps for rent exemption.
pub const RENT_EXEMPT: u64 = 890880;

/// The bytes of `"config"`.
pub const CONFIG_SEED: [u8; 6] = [99, 111, 110, 102, 105, 103];

pub open spec fn stored_owner(data: Seq<u8>) -> Seq<u8> {
    bytes_at(data, OWNER_OFFSET as int, 32)
}

pub open spec fn is_initialized(data: Seq<u8>) -> bool {
    data[IS_INITIALIZED_OFFSET as int] != 0
}

/// Whether `key` is the configuration's derived address.
pub open spec fn at_config_address(key: Seq<u8>, program_id: Seq<u8>) -> bool {
    derived_address(seq![CONFIG_SEED@], program_id) matches Some(found) && found.0 == key
}

/// What `process_initialize` does: refuses a wrong number of accounts, an unsigned
/// payer or a configuration away from its address; on an initialized one refuses
/// another owner and otherwise writes the value only; on a fresh one sets the
/// flag, the payer as owner and the value.
pub open spec fn initialize_spec(program_id: Seq<u8>, old: Seq<AccountInfo>, new: Seq<AccountInfo>, value: u64, r: Result<(), ProgramError>) -> bool {
    if old.len() != 3 {
        r == Err::<(), ProgramError>(ProgramError::NotEnoughAccountKeys) && new == old
    } else if !old[1].is_signer {
        r == Err::<(), ProgramError>(ProgramError::MissingRequiredSignature) && new == old
    } else if !at_config_address(old[0].key@, program_id) {
        r == Err::<(), ProgramError>(ProgramError::InvalidSeeds) && new == old
    } else if is_initialized(old[0].data@) && stored_owner(old[0].data@) != old[1].key@ {
        r == Err::<(), ProgramError>(ProgramError::AccountAlreadyInitialized) && new == old
    } else {
        let data = old[0].data@;
        let written = if is_initialized(data) {
            put_u64(data, 33, value)
        } else {
            put_u64(put_bytes(data.update(0, 1u8), 1, old[1].key@), 33, value)
        };
        &&& r is Ok
        &&& new.len() == 3
        &&& account_is(new[0], old[0], old[0].lamports, written)
        &&& new[1] == old[1]
        &&& new[2] == old[2]
    }
}

/// Whether the configuration's bytes reach as far as `process_initialize` reads
/// and writes them, once the payer signed and the address is right: the flag; on
/// an initialized configuration the recorded owner, and the value when the owner
/// is the payer; on a fresh one the whole layout.
pub open spec fn initialize_sized(program_id: Seq<u8>, accounts: Seq<AccountInfo>) -> bool {
    accounts.len() == 3 && accounts[1].is_signer && at_config_address(accounts[0].key@, program_id) ==> {
        let d = accounts[0].data@;
        &&& d.len() >= 1
        &&& is_initialized(d) ==> d.len() >= OWNER_OFFSET + 32
            && (stored_owner(d) == accounts[1].key@ ==> d.len() >= CONFIG_SIZE)
        &&& !is_initialized(d) ==> d.len() >= CONFIG_SIZE
    }
}

pub fn process_initialize(program_id: &Pubkey, accounts: &mut Vec<AccountInfo>, value: u64) -> (r: Result<(), ProgramError>)
    requires
        initialize_sized(program_id@, old(accounts)@),
    ensures
        initialize_spec(program_id@, old(accounts)@, final(accounts)@, value, r),
{
    if accounts.len() != 3 {
        return Err(ProgramError::NotEnoughAccountKeys);
    }
    if !accounts[1].is_signer {
        return Err(ProgramError::MissingRequiredSignature);
    }
    let expected = match try_find_program_address(&seed_list1(&CONFIG_SEED), program_id) {
        Some(found) => found.0,
        None => { return Err(ProgramError::InvalidSeeds); },
    };
    if !keys_eq(&accounts[0].key, &expected) {
        return Err(ProgramError::InvalidSeeds);
    }
    let payer = accounts[1].key;
    if accounts[0].data[IS_INITIALIZED_OFFSET] != 0 {
        if !bytes_eq_key(&accounts[0].data, OWNER_OFFSET, &payer) {
            return Err(ProgramError::AccountAlreadyInitialized);
        }
        write_u64_le(&mut accounts[0].data, VALUE_OFFSET, value);
    } else {
        accounts[0].data[IS_INITIALIZED_OFFSET] = 1;
        write_bytes(&mut accounts[0].data, OWNER_OFFSET, &payer);
        write_u64_le(&mut accounts[0].data, VALUE_OFFSET, value);
    }
    Ok(())
}

/// What `process_update_value` does: refuses a wrong number of accounts, an
/// unsigned owner, an uninitialized configuration or another owner; otherwise
/// writes the value.
pub open spec fn update_value_spec(old: Seq<AccountInfo>, new: Seq<AccountInfo>, value: u64, r: Result<(), ProgramError>) -> bool {
    if old.len() != 2 {
        r == Err::<(), ProgramError>(ProgramError::NotEnoughAccountKeys) && new == old
    } else if !old[1].is_signer {
        r == Err::<(), ProgramError>(ProgramError::MissingRequiredSignature) && new == old
    } else if !is_initialized(old[0].data@) {
        r == Err::<(), ProgramError>(ProgramError::UninitializedAccount) && new == old
    } else if stored_owner(old[0].data@) != old[1].key@ {
        r == Err::<(), ProgramError>(ProgramError::InvalidAccountData) && new == old
    } else {
        &&& r is Ok
        &&& new.len() == 2
        &&& account_is(new[0], old[0], old[0].lamports, put_u64(old[0].data@, 33, value))
        &&& new[1] == old[1]
    }
}

/// Whether the configuration's bytes reach as far as the owner checks read them,
/// once the owner signed: the flag, and the recorded owner once the flag is set.
pub open spec fn owner_checks_safe(accounts: Seq<AccountInfo>) -> bool {
    accounts.len() == 2 && accounts[1].is_signer ==> {
        let d = accounts[0].data@;
        &&& d.len() >= 1
        &&& is_initialized(d) ==> d.len() >= OWNER_OFFSET + 32
    }
}

/// Whether `process_update_value` reads and writes only inside the bytes: the
/// owner checks, and the value once they pass.
pub open spec fn update_value_safe(accounts: Seq<AccountInfo>) -> bool {
    &&& owner_checks_safe(accounts)
    &&& accounts.len() == 2 && accounts[1].is_signer && is_initialized(accounts[0].data@)
        && stored_owner(accounts[0].data@) == accounts[1].key@ ==> accounts[0].data@.len() >= CONFIG_SIZE
}

pub fn process_update_value(accounts: &mut Vec<AccountInfo>, new_value: u64) -> (r: Result<(), ProgramError>)
    requires
        update_value_safe(old(accounts)@),
    ensures
        update_value_spec(old(accounts)@, final(accounts)@, new_value, r),
{
    if accounts.len() != 2 {
        return Err(ProgramError::NotEnoughAccountKeys);
    }
    if !accounts[1].is_signer {
        return Err(ProgramError::MissingRequiredSignature);
    }
    if accounts[0].data[IS_INITIALIZED_OFFSET] == 0 {
        return Err(ProgramError::UninitializedAccount);
    }
    let owner = accounts[1].key;
    if !bytes_eq_key(&accounts[0].data, OWNER_OFFSET, &owner) {
        return Err(ProgramError::InvalidAccountData);
    }
    write_u64_le(&mut accounts[0].data, VALUE_OFFSET, new_value);
    Ok(())
}

/// The lamports `process_withdraw` takes: all above the rent-exempt amount.
pub open spec fn withdrawable(lamports: u64) -> u64 {
    if lamports > RENT_EXEMPT { (lamports - RENT_EXEMPT) as u64 } else { 0 }
}

/// What `process_withdraw` does: the checks of `process_update_value`, then every
/// lamport above the rent-exempt amount moves to the owner.
pub open spec fn withdraw_spec(old: Seq<AccountInfo>, new: Seq<AccountInfo>, r: Result<(), ProgramError>) -> bool {
    if old.len() != 2 {
        r == Err::<(), ProgramError>(ProgramError::NotEnoughAccountKeys) && new == old
    } else if !old[1].is_signer {
        r == Err::<(), ProgramError>(ProgramError::MissingRequiredSignature) && new == old
    } else if !is_initialized(old[0].data@) {
        r == Err::<(), ProgramError>(ProgramError::UninitializedAccount) && new == old
    } else if stored_owner(old[0].data@) != old[1].key@ {
        r == Err::<(), ProgramError>(ProgramError::InvalidAccountData) && new == old
    } else {
        let w = withdrawable(old[0].lamports);
        &&& r is Ok
        &&& new.len() == 2
        &&& account_is(new[0], old[0], (old[0].lamports - w) as u64, old[0].data@)
        &&& account_is(new[1], old[1], (old[1].lamports + w) as u64, old[1].data@)
    }
}

/// Whether `process_withdraw` runs without a panic.
pub open spec fn withdraw_safe(accounts: Seq<AccountInfo>) -> bool {
    &&& owner_checks_safe(accounts)
    &&& accounts.len() == 2 ==> accounts[1].lamports + withdrawable(accounts[0].lamports) <= u64::MAX
}

pub fn process_withdraw(accounts: &mut Vec<AccountInfo>) -> (r: Result<(), ProgramError>)
    requires
        withdraw_safe(old(accounts)@),
    ensures
        withdraw_spec(old(accounts)@, final(accounts)@, r),
{
    if accounts.len() != 2 {
        return Err(ProgramError::NotEnoughAccountKeys);
    }
    if !accounts[1].is_signer {
        return Err(ProgramError::MissingRequiredSignature);
    }
    if accounts[0].data[IS_INITIALIZED_OFFSET] == 0 {
        return Err(ProgramError::UninitializedAccount);
    }
    let owner = accounts[1].key;
    if !bytes_eq_key(&accounts[0].data, OWNER_OFFSET, &owner) {
        return Err(ProgramError::InvalidAccountData);
    }
    let withdrawable = accounts[0].lamports.saturating_sub(RENT_EXEMPT);
    accounts[0].lamports = accounts[0].lamports - withdrawable;
    accounts[1].lamports = accounts[1].lamports + withdrawable;
    Ok(())
}

/// The value an initialization or update carries at bytes 1..9.
pub open spec fn instruction_value(data: Seq<u8>) -> u64 {
    le_u64_at(data, 1)
}

/// Decodes the instruction tag (and value) and runs the instruction.
pub fn process_instruction(program_id: &Pubkey, accounts: &mut Vec<AccountInfo>, instruction_data: &[u8]) -> (r: Result<(), ProgramError>)
    requires
        instruction_data@.len() > 0 && (instruction_data@[0] == INITIALIZE || instruction_data@[0] == UPDATE_VALUE)
            ==> instruction_data@.len() >= 9,
        instruction_data@.len() > 0 && instruction_data@[0] == INITIALIZE ==> initialize_sized(program_id@, old(accounts)@),
        instruction_data@.len() > 0 && instruction_data@[0] == UPDATE_VALUE ==> update_value_safe(old(accounts)@),
        instruction_data@.len() > 0 && instruction_data@[0] == WITHDRAW ==> withdraw_safe(old(accounts)@),
    ensures
        instruction_data@.len() == 0 || instruction_data@[0] > WITHDRAW
            ==> r == Err::<(), ProgramError>(ProgramError::InvalidInstructionData) && final(accounts)@ == old(accounts)@,
        instruction_data@.len() > 0 && instruction_data@[0] == INITIALIZE
            ==> initialize_spec(program_id@, old(accounts)@, final(accounts)@, instruction_value(instruction_data@), r),
        instruction_data@.len() > 0 && instruction_data@[0] == UPDATE_VALUE
            ==> update_value_spec(old(accounts)@, final(accounts)@, instruction_value(instruction_data@), r),
        instruction_data@.len() > 0 && instruction_data@[0] == WITHDRAW ==> withdraw_spec(old(accounts)@, final(accounts)@, r),
{
    if instruction_data.len() == 0 {
        return Err(ProgramError::InvalidInstructionData);
    }
    let tag = instruction_data[0];
    if tag == INITIALIZE {
        let value = crate::bytes::read_u64_le(instruction_data, 1);
        process_initialize(program_id, accounts, value)
    } else if tag == UPDATE_VALUE {
        let value = crate::bytes::read_u64_le(instruction_data, 1);
        process_update_value(accounts, value)
    } else if tag == WITHDRAW {
        process_withdraw(accounts)
    } else {
        Err(ProgramError::InvalidInstructionData)
    }
}

/// Once set up, a configuration keeps its owner: an initialization of an
/// initialized configuration either fails and changes nothing, or, only when the
/// payer is the recorded owner, rewrites the value and nothing else.
pub proof fn initialized_owner_is_kept(program_id: Seq<u8>, old: Seq<AccountInfo>, new: Seq<AccountInfo>, value: u64, r: Result<(), ProgramError>)
    requires
        initialize_spec(program_id, old, new, value, r),
        initialize_sized(program_id, old),
        old.len() > 0,
        old[0].data@.len() > 0,
        is_initialized(old[0].data@),
    ensures
        r is Err ==> new == old,
        r is Ok ==> {
            &&& old[1].key@ == stored_owner(old[0].data@)
            &&& new[0].data@ == put_u64(old[0].data@, VALUE_OFFSET as int, value)
            &&& is_initialized(new[0].data@)
            &&& stored_owner(new[0].data@) == stored_owner(old[0].data@)
        },
{
    if r is Ok {
        let data = old[0].data@;
        crate::bytes::lemma_put_u64(data, 33, value);
        assert(stored_owner(new[0].data@) =~= stored_owner(data));
    }
}

} // verus!
