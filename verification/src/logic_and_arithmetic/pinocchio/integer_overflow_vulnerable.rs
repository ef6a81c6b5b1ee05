//! A staking pool kept in raw account bytes whose totals are updated with
//! wrapping arithmetic, so they silently wrap around.
//! Pool layout: authority at 0..32, total staked at 32..40, reward rate at
//! 40..48; stake layout: staked amount at 0..8 (all little-endian).
use crate::bytes::{le_u64_at, put_bytes, put_u64, read_u64_le, write_bytes, write_u64_le};
use crate::math::wrap_u64;
use crate::runtime::{account_is, AccountInfo, ProgramError, Pubkey};
use vstd::prelude::*;

verus! {

pub const INITIALIZE: u8 = 0;
pub const STAKE: u8 = 1;
pub const WITHDRAW: u8 = 2;

pub const AUTHORITY_OFFSET: usize = 0;
pub const TOTAL_STAKED_OFFSET: usize = 32;
pub const REWARD_RATE_OFFSET: usize = 40;
pub const STAKED_AMOUNT_OFFSET: usize = 0;

/// The bytes a pool's layout takes.
pub const POOL_SIZE: usize = 48;

/// The reward rate a new pool starts with.
pub const INITIAL_REWARD_RATE: u64 = 100;

/// What `process_initialize` does: refuses a wrong number of accounts or an
/// unsigned authority; otherwise writes the authority, a zero total and the
/// initial rate into the pool.
pub open spec fn initialize_spec(old: Seq<AccountInfo>, new: Seq<AccountInfo>, r: Result<(), ProgramError>) -> bool {
    if old.len() != 3 {
        r == Err::<(), ProgramError>(ProgramError::NotEnoughAccountKeys) && new == old
    } else if !old[1].is_signer {
        r == Err::<(), ProgramError>(ProgramError::MissingRequiredSignature) && new == old
    } else {
        let written = put_u64(put_u64(put_bytes(old[0].data@, 0, old[1].key@), 32, 0), 40, INITIAL_REWARD_RATE);
        &&& r is Ok
        &&& new.len() == 3
        &&& account_is(new[0], old[0], old[0].lamports, written)
        &&& new[1] == old[1]
        &&& new[2] == old[2]
    }
}

/// Whether the pool's bytes hold its layout wherever `process_initialize` writes them.
pub open spec fn initialize_safe(accounts: Seq<AccountInfo>) -> bool {
    accounts.len() == 3 && accounts[1].is_signer ==> accounts[0].data@.len() >= POOL_SIZE
}

pub fn process_initialize(accounts: &mut Vec<AccountInfo>) -> (r: Result<(), ProgramError>)
    requires
        initialize_safe(old(accounts)@),
    ensures
        initialize_spec(old(accounts)@, final(accounts)@, r),
{
    if accounts.len() != 3 {
        return Err(ProgramError::NotEnoughAccountKeys);
    }
    if !accounts[1].is_signer {
        return Err(ProgramError::MissingRequiredSignature);
    }
    let authority = accounts[1].key;
    write_bytes(&mut accounts[0].data, AUTHORITY_OFFSET, &authority);
    write_u64_le(&mut accounts[0].data, TOTAL_STAKED_OFFSET, 0);
    write_u64_le(&mut accounts[0].data, REWARD_RATE_OFFSET, INITIAL_REWARD_RATE);
    Ok(())
}

/// Whether the pool and stake bytes are long enough wherever an instruction with
/// `n` accounts reads and writes them after its signer check (the staker is
/// third).
pub open spec fn totals_sized(accounts: Seq<AccountInfo>, n: int) -> bool {
    accounts.len() == n && accounts[2].is_signer ==> {
        &&& accounts[0].data@.len() >= TOTAL_STAKED_OFFSET + 8
        &&& accounts[1].data@.len() >= STAKED_AMOUNT_OFFSET + 8
    }
}

/// What `process_stake` does: refuses a wrong number of accounts or an unsigned
/// staker; otherwise adds `amount` to the pool's total and to the stake, modulo 2^64.
pub open spec fn stake_spec(old: Seq<AccountInfo>, new: Seq<AccountInfo>, amount: u64, r: Result<(), ProgramError>) -> bool {
    if old.len() != 4 {
        r == Err::<(), ProgramError>(ProgramError::NotEnoughAccountKeys) && new == old
    } else if !old[2].is_signer {
        r == Err::<(), ProgramError>(ProgramError::MissingRequiredSignature) && new == old
    } else {
        let total = le_u64_at(old[0].data@, 32);
        let staked = le_u64_at(old[1].data@, 0);
        &&& r is Ok
        &&& new.len() == 4
        &&& account_is(new[0], old[0], old[0].lamports, put_u64(old[0].data@, 32, wrap_u64(total + amount)))
        &&& account_is(new[1], old[1], old[1].lamports, put_u64(old[1].data@, 0, wrap_u64(staked + amount)))
        &&& new[2] == old[2]
        &&& new[3] == old[3]
    }
}

pub fn process_stake(accounts: &mut Vec<AccountInfo>, amount: u64) -> (r: Result<(), ProgramError>)
    requires
        totals_sized(old(accounts)@, 4),
    ensures
        stake_spec(old(accounts)@, final(accounts)@, amount, r),
{
    if accounts.len() != 4 {
        return Err(ProgramError::NotEnoughAccountKeys);
    }
    if !accounts[2].is_signer {
        return Err(ProgramError::MissingRequiredSignature);
    }
    let total_staked = read_u64_le(&accounts[0].data, TOTAL_STAKED_OFFSET);
    let staked_amount = read_u64_le(&accounts[1].data, STAKED_AMOUNT_OFFSET);
    let new_total = total_staked.wrapping_add(amount);
    let new_staked = staked_amount.wrapping_add(amount);
    write_u64_le(&mut accounts[0].data, TOTAL_STAKED_OFFSET, new_total);
    write_u64_le(&mut accounts[1].data, STAKED_AMOUNT_OFFSET, new_staked);
    Ok(())
}

/// What `process_withdraw` does: refuses a wrong number of accounts or an
/// unsigned staker; otherwise takes `amount` off the pool's total and the stake,
/// modulo 2^64, however little either holds.
pub open spec fn withdraw_spec(old: Seq<AccountInfo>, new: Seq<AccountInfo>, amount: u64, r: Result<(), ProgramError>) -> bool {
    if old.len() != 3 {
        r == Err::<(), ProgramError>(ProgramError::NotEnoughAccountKeys) && new == old
    } else if !old[2].is_signer {
        r == Err::<(), ProgramError>(ProgramError::MissingRequiredSignature) && new == old
    } else {
        let total = le_u64_at(old[0].data@, 32);
        let staked = le_u64_at(old[1].data@, 0);
        &&& r is Ok
        &&& new.len() == 3
        &&& account_is(new[0], old[0], old[0].lamports, put_u64(old[0].data@, 32, wrap_u64(total - amount)))
        &&& account_is(new[1], old[1], old[1].lamports, put_u64(old[1].data@, 0, wrap_u64(staked - amount)))
        &&& new[2] == old[2]
    }
}

pub fn process_withdraw(accounts: &mut Vec<AccountInfo>, amount: u64) -> (r: Result<(), ProgramError>)
    requires
        totals_sized(old(accounts)@, 3),
    ensures
        withdraw_spec(old(accounts)@, final(accounts)@, amount, r),
{
    if accounts.len() != 3 {
        return Err(ProgramError::NotEnoughAccountKeys);
    }
    if !accounts[2].is_signer {
        return Err(ProgramError::MissingRequiredSignature);
    }
    let total_staked = read_u64_le(&accounts[0].data, TOTAL_STAKED_OFFSET);
    let staked_amount = read_u64_le(&accounts[1].data, STAKED_AMOUNT_OFFSET);
    let new_staked = staked_amount.wrapping_sub(amount);
    let new_total = total_staked.wrapping_sub(amount);
    write_u64_le(&mut accounts[0].data, TOTAL_STAKED_OFFSET, new_total);
    write_u64_le(&mut accounts[1].data, STAKED_AMOUNT_OFFSET, new_staked);
    Ok(())
}

/// The amount a stake or withdrawal carries at bytes 1..9.
pub open spec fn instruction_amount(data: Seq<u8>) -> u64 {
    le_u64_at(data, 1)
}

/// Decodes the instruction tag (and amount) and runs the instruction.
pub fn process_instruction(program_id: &Pubkey, accounts: &mut Vec<AccountInfo>, instruction_data: &[u8]) -> (r: Result<(), ProgramError>)
    requires
        instruction_data@.len() > 0 && (instruction_data@[0] == STAKE || instruction_data@[0] == WITHDRAW)
            ==> instruction_data@.len() >= 9,
        instruction_data@.len() > 0 && instruction_data@[0] == INITIALIZE ==> initialize_safe(old(accounts)@),
        instruction_data@.len() > 0 && instruction_data@[0] == STAKE ==> totals_sized(old(accounts)@, 4),
        instruction_data@.len() > 0 && instruction_data@[0] == WITHDRAW ==> totals_sized(old(accounts)@, 3),
    ensures
        instruction_data@.len() == 0 || instruction_data@[0] > WITHDRAW
            ==> r == Err::<(), ProgramError>(ProgramError::InvalidInstructionData) && final(accounts)@ == old(accounts)@,
        instruction_data@.len() > 0 && instruction_data@[0] == INITIALIZE ==> initialize_spec(old(accounts)@, final(accounts)@, r),
        instruction_data@.len() > 0 && instruction_data@[0] == STAKE
            ==> stake_spec(old(accounts)@, final(accounts)@, instruction_amount(instruction_data@), r),
        instruction_data@.len() > 0 && instruction_data@[0] == WITHDRAW
            ==> withdraw_spec(old(accounts)@, final(accounts)@, instruction_amount(instruction_data@), r),
{
    if instruction_data.len() == 0 {
        return Err(ProgramError::InvalidInstructionData);
    }
    let tag = instruction_data[0];
    if tag == INITIALIZE {
        process_initialize(accounts)
    } else if tag == STAKE {
        let amount = read_u64_le(instruction_data, 1);
        process_stake(accounts, amount)
    } else if tag == WITHDRAW {
        let amount = read_u64_le(instruction_data, 1);
        process_withdraw(accounts, amount)
    } else {
        Err(ProgramError::InvalidInstructionData)
    }
}

} // verus!
