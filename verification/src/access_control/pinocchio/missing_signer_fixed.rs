//! A vault kept in raw account bytes whose withdrawals need the authority's
//! signature. Layout: authority at bytes 0..32, balance (little-endian) at 32..40.
use crate::bytes::{bytes_at, bytes_eq_key, keys_eq, le_u64_at, put_bytes, put_u64, read_u64_le, write_bytes, write_u64_le};
use crate::framework::seed_list2;
use crate::outside::{derived_address, seeds_view, try_find_program_address};
use crate::runtime::{account_is, AccountInfo, ProgramError, Pubkey};
use vstd::prelude::*;

verus! {

pub const INITIALIZE: u8 = 0;
pub const DEPOSIT: u8 = 1;
pub const WITHDRAW: u8 = 2;

pub const AUTHORITY_OFFSET: usize = 0;
pub const BALANCE_OFFSET: usize = 32;

/// The bytes of `"vault"`.
pub const VAULT_SEED: [u8; 5] = [118, 97, 117, 108, 116];

/// The authority recorded in vault data.
pub open spec fn stored_authority(data: Seq<u8>) -> Seq<u8> {
    bytes_at(data, AUTHORITY_OFFSET as int, 32)
}

/// The balance recorded in vault data.
pub open spec fn stored_balance(data: Seq<u8>) -> u64 {
    le_u64_at(data, BALANCE_OFFSET as int)
}

/// The address and bump derived for a vault of `authority` under `program_id`.
pub open spec fn vault_address(authority: Seq<u8>, program_id: Seq<u8>) -> Option<(Seq<u8>, u8)> {
    derived_address(seq![VAULT_SEED@, authority], program_id)
}

/// Whether `process_initialize` gets past its signature and address checks.
pub open spec fn initialize_checks_pass(program_id: Seq<u8>, accounts: Seq<AccountInfo>) -> bool {
    &&& accounts.len() == 3
    &&& accounts[1].is_signer
    &&& vault_address(accounts[1].key@, program_id) matches Some(found)
    &&& found.0 == accounts[0].key@
}

/// What `process_initialize` does: refuses a wrong number of accounts, an unsigned
/// authority or a vault away from its derived address; otherwise writes the
/// authority's key and a zero balance into the vault.
pub open spec fn initialize_spec(program_id: Seq<u8>, old: Seq<AccountInfo>, new: Seq<AccountInfo>, r: Result<(), ProgramError>) -> bool {
    if old.len() != 3 {
        r == Err::<(), ProgramError>(ProgramError::NotEnoughAccountKeys) && new == old
    } else if !old[1].is_signer {
        r == Err::<(), ProgramError>(ProgramError::MissingRequiredSignature) && new == old
    } else if !initialize_checks_pass(program_id, old) {
        r == Err::<(), ProgramError>(ProgramError::InvalidSeeds) && new == old
    } else {
        &&& r is Ok
        &&& new.len() == 3
        &&& account_is(new[0], old[0], old[0].lamports, put_u64(put_bytes(old[0].data@, 0, old[1].key@), 32, 0))
        &&& new[1] == old[1]
        &&& new[2] == old[2]
    }
}

/// Writes the signer's key as authority and a zero balance into the vault at the
/// address derived from `"vault"` and the authority's key.
pub fn process_initialize(program_id: &Pubkey, accounts: &mut Vec<AccountInfo>) -> (r: Result<(), ProgramError>)
    requires
        initialize_checks_pass(program_id@, old(accounts)@) ==> old(accounts)@[0].data@.len() >= 40,
    ensures
        initialize_spec(program_id@, old(accounts)@, final(accounts)@, r),
{
    if accounts.len() != 3 {
        return Err(ProgramError::NotEnoughAccountKeys);
    }
    if !accounts[1].is_signer {
        return Err(ProgramError::MissingRequiredSignature);
    }
    let authority = accounts[1].key;
    let found = try_find_program_address(&seed_list2(&VAULT_SEED, &authority), program_id);
    let pda = match found {
        Some(p) => p.0,
        None => return Err(ProgramError::InvalidSeeds),
    };
    if !keys_eq(&accounts[0].key, &pda) {
        return Err(ProgramError::InvalidSeeds);
    }
    write_bytes(&mut accounts[0].data, AUTHORITY_OFFSET, &authority);
    write_u64_le(&mut accounts[0].data, BALANCE_OFFSET, 0);
    Ok(())
}

/// What `process_deposit` does: refuses a wrong number of accounts or an unsigned
/// depositor; otherwise moves `amount` lamports from the depositor to the vault and
/// adds `amount` to the recorded balance; when that overflows it fails with
/// `ArithmeticOverflow` and, the instruction failing as a whole, nothing moves.
pub open spec fn deposit_spec(old: Seq<AccountInfo>, new: Seq<AccountInfo>, amount: u64, r: Result<(), ProgramError>) -> bool {
    if old.len() != 3 {
        r == Err::<(), ProgramError>(ProgramError::NotEnoughAccountKeys) && new == old
    } else if !old[1].is_signer {
        r == Err::<(), ProgramError>(ProgramError::MissingRequiredSignature) && new == old
    } else {
        if stored_balance(old[0].data@) + amount > u64::MAX {
            r == Err::<(), ProgramError>(ProgramError::ArithmeticOverflow) && new == old
        } else {
            &&& r is Ok
            &&& new.len() == 3
            &&& account_is(new[0], old[0], (old[0].lamports + amount) as u64,
                put_u64(old[0].data@, 32, (stored_balance(old[0].data@) + amount) as u64))
            &&& account_is(new[1], old[1], (old[1].lamports - amount) as u64, old[1].data@)
            &&& new[2] == old[2]
        }
    }
}

/// Whether `process_deposit` can run without an arithmetic or slicing panic.
pub open spec fn deposit_safe(accounts: Seq<AccountInfo>, amount: u64) -> bool {
    accounts.len() == 3 && accounts[1].is_signer ==> {
        &&& accounts[1].lamports >= amount
        &&& accounts[0].lamports + amount <= u64::MAX
        &&& accounts[0].data@.len() >= 40
    }
}

/// Moves `amount` lamports from the signing depositor to the vault and adds it to
/// the recorded balance.
pub fn process_deposit(accounts: &mut Vec<AccountInfo>, amount: u64) -> (r: Result<(), ProgramError>)
    requires
        deposit_safe(old(accounts)@, amount),
    ensures
        deposit_spec(old(accounts)@, final(accounts)@, amount, r),
{
    if accounts.len() != 3 {
        return Err(ProgramError::NotEnoughAccountKeys);
    }
    if !accounts[1].is_signer {
        return Err(ProgramError::MissingRequiredSignature);
    }
    let current_balance = read_u64_le(&accounts[0].data, BALANCE_OFFSET);
    let new_balance = match current_balance.checked_add(amount) {
        Some(b) => b,
        None => return Err(ProgramError::ArithmeticOverflow),
    };
    accounts[1].lamports = accounts[1].lamports - amount;
    accounts[0].lamports = accounts[0].lamports + amount;
    write_u64_le(&mut accounts[0].data, BALANCE_OFFSET, new_balance);
    Ok(())
}

/// Whether a withdrawal of `amount` passes every check of `process_withdraw`.
pub open spec fn withdraw_allowed(accounts: Seq<AccountInfo>, amount: u64) -> bool {
    &&& accounts.len() == 2
    &&& accounts[1].is_signer
    &&& stored_authority(accounts[0].data@) == accounts[1].key@
    &&& stored_balance(accounts[0].data@) >= amount
}

/// What `process_withdraw` does: refuses a wrong number of accounts, an unsigned
/// authority, another authority than the recorded one, or a balance below `amount`;
/// otherwise lowers the recorded balance by `amount` and pays that many lamports
/// from the vault to the authority.
pub open spec fn withdraw_spec(old: Seq<AccountInfo>, new: Seq<AccountInfo>, amount: u64, r: Result<(), ProgramError>) -> bool {
    if old.len() != 2 {
        r == Err::<(), ProgramError>(ProgramError::NotEnoughAccountKeys) && new == old
    } else if !old[1].is_signer {
        r == Err::<(), ProgramError>(ProgramError::MissingRequiredSignature) && new == old
    } else if stored_authority(old[0].data@) != old[1].key@ {
        r == Err::<(), ProgramError>(ProgramError::InvalidAccountData) && new == old
    } else if stored_balance(old[0].data@) < amount {
        r == Err::<(), ProgramError>(ProgramError::InsufficientFunds) && new == old
    } else {
        &&& r is Ok
        &&& new.len() == 2
        &&& account_is(new[0], old[0], (old[0].lamports - amount) as u64,
            put_u64(old[0].data@, 32, (stored_balance(old[0].data@) - amount) as u64))
        &&& account_is(new[1], old[1], (old[1].lamports + amount) as u64, old[1].data@)
    }
}

/// Whether `process_withdraw` can run without an arithmetic or slicing panic.
pub open spec fn withdraw_safe(accounts: Seq<AccountInfo>, amount: u64) -> bool {
    &&& accounts.len() == 2 && accounts[1].is_signer ==> accounts[0].data@.len() >= 32
    &&& accounts.len() == 2 && accounts[1].is_signer && stored_authority(accounts[0].data@) == accounts[1].key@
        ==> accounts[0].data@.len() >= 40
    &&& withdraw_allowed(accounts, amount) ==> accounts[0].lamports >= amount && accounts[1].lamports + amount <= u64::MAX
}

/// Pays `amount` lamports from the vault to its authority, who must sign and be
/// the recorded authority; the recorded balance drops by `amount` first.
pub fn process_withdraw(accounts: &mut Vec<AccountInfo>, amount: u64) -> (r: Result<(), ProgramError>)
    requires
        withdraw_safe(old(accounts)@, amount),
    ensures
        withdraw_spec(old(accounts)@, final(accounts)@, amount, r),
{
    if accounts.len() != 2 {
        return Err(ProgramError::NotEnoughAccountKeys);
    }
    if !accounts[1].is_signer {
        return Err(ProgramError::MissingRequiredSignature);
    }
    let authority = accounts[1].key;
    if !bytes_eq_key(&accounts[0].data, AUTHORITY_OFFSET, &authority) {
        return Err(ProgramError::InvalidAccountData);
    }
    let current_balance = read_u64_le(&accounts[0].data, BALANCE_OFFSET);
    if current_balance < amount {
        return Err(ProgramError::InsufficientFunds);
    }
    let new_balance = current_balance - amount;
    write_u64_le(&mut accounts[0].data, BALANCE_OFFSET, new_balance);
    accounts[0].lamports = accounts[0].lamports - amount;
    accounts[1].lamports = accounts[1].lamports + amount;
    Ok(())
}

/// The instruction data of a deposit or withdrawal carries its amount at 1..9.
pub open spec fn instruction_amount(data: Seq<u8>) -> u64 {
    le_u64_at(data, 1)
}

/// Decodes the instruction tag and its amount and runs the instruction.
pub fn process_instruction(program_id: &Pubkey, accounts: &mut Vec<AccountInfo>, instruction_data: &[u8]) -> (r: Result<(), ProgramError>)
    requires
        instruction_data@.len() > 0 && (instruction_data@[0] == DEPOSIT || instruction_data@[0] == WITHDRAW)
            ==> instruction_data@.len() >= 9,
        instruction_data@.len() > 0 && instruction_data@[0] == INITIALIZE
            ==> (initialize_checks_pass(program_id@, old(accounts)@) ==> old(accounts)@[0].data@.len() >= 40),
        instruction_data@.len() >= 9 && instruction_data@[0] == DEPOSIT
            ==> deposit_safe(old(accounts)@, instruction_amount(instruction_data@)),
        instruction_data@.len() >= 9 && instruction_data@[0] == WITHDRAW
            ==> withdraw_safe(old(accounts)@, instruction_amount(instruction_data@)),
    ensures
        instruction_data@.len() == 0 || instruction_data@[0] > WITHDRAW
            ==> r == Err::<(), ProgramError>(ProgramError::InvalidInstructionData) && final(accounts)@ == old(accounts)@,
        instruction_data@.len() > 0 && instruction_data@[0] == INITIALIZE
            ==> initialize_spec(program_id@, old(accounts)@, final(accounts)@, r),
        instruction_data@.len() > 0 && instruction_data@[0] == DEPOSIT
            ==> deposit_spec(old(accounts)@, final(accounts)@, instruction_amount(instruction_data@), r),
        instruction_data@.len() > 0 && instruction_data@[0] == WITHDRAW
            ==> withdraw_spec(old(accounts)@, final(accounts)@, instruction_amount(instruction_data@), r),
{
    if instruction_data.len() == 0 {
        return Err(ProgramError::InvalidInstructionData);
    }
    let tag = instruction_data[0];
    if tag == INITIALIZE {
        process_initialize(program_id, accounts)
    } else if tag == DEPOSIT {
        let amount = read_u64_le(instruction_data, 1);
        process_deposit(accounts, amount)
    } else if tag == WITHDRAW {
        let amount = read_u64_le(instruction_data, 1);
        process_withdraw(accounts, amount)
    } else {
        Err(ProgramError::InvalidInstructionData)
    }
}

} // verus!
