//! Withdrawals from a vault kept in raw account bytes that never look at the
//! account's one-byte type tag, so a user account with the same layout passes.
//! Vault layout: type tag at 0, owner at 1..33, balance (little-endian) at 33..41.
use crate::bytes::{bytes_at, bytes_eq_key, le_u64_at, read_u64_le};
use crate::runtime::{AccountInfo, ProgramError, Pubkey};
use vstd::prelude::*;

verus! {

pub const WITHDRAW: u8 = 0;

/// The type tag of a vault account.
pub const VAULT_DISCRIMINATOR: u8 = 1;

/// The type tag of a user account.
pub const USER_DISCRIMINATOR: u8 = 2;

pub const VAULT_OWNER_OFFSET: usize = 1;
pub const VAULT_BALANCE_OFFSET: usize = 33;

/// What `process_withdraw` answers: a wrong number of accounts, an unsigned
/// authority, another owner, or a balance below `amount` is refused, whatever
/// the account's type; the withdrawal itself changes nothing.
pub open spec fn withdraw_result(accounts: Seq<AccountInfo>, amount: u64) -> Result<(), ProgramError> {
    if accounts.len() != 2 {
        Err(ProgramError::NotEnoughAccountKeys)
    } else if !accounts[1].is_signer {
        Err(ProgramError::MissingRequiredSignature)
    } else if bytes_at(accounts[0].data@, VAULT_OWNER_OFFSET as int, 32) != accounts[1].key@ {
        Err(ProgramError::InvalidAccountData)
    } else if le_u64_at(accounts[0].data@, VAULT_BALANCE_OFFSET as int) < amount {
        Err(ProgramError::InsufficientFunds)
    } else {
        Ok(())
    }
}

/// Whether the vault's bytes hold its layout wherever they are read.
pub open spec fn vault_sized(accounts: Seq<AccountInfo>) -> bool {
    accounts.len() == 2 && accounts[1].is_signer ==> accounts[0].data@.len() >= VAULT_BALANCE_OFFSET + 8
}

pub fn process_withdraw(accounts: &[AccountInfo], amount: u64) -> (r: Result<(), ProgramError>)
    requires
        vault_sized(accounts@),
    ensures
        r == withdraw_result(accounts@, amount),
{
    if accounts.len() != 2 {
        return Err(ProgramError::NotEnoughAccountKeys);
    }
    if !accounts[1].is_signer {
        return Err(ProgramError::MissingRequiredSignature);
    }
    if !bytes_eq_key(&accounts[0].data, VAULT_OWNER_OFFSET, &accounts[1].key) {
        return Err(ProgramError::InvalidAccountData);
    }
    if read_u64_le(&accounts[0].data, VAULT_BALANCE_OFFSET) < amount {
        return Err(ProgramError::InsufficientFunds);
    }
    Ok(())
}

/// Decodes the instruction (tag, then the amount at bytes 1..9) and runs it;
/// data shorter than nine bytes is refused.
pub fn process_instruction(program_id: &Pubkey, accounts: &[AccountInfo], instruction_data: &[u8]) -> (r: Result<(), ProgramError>)
    requires
        instruction_data@.len() >= 9 && instruction_data@[0] == WITHDRAW ==> vault_sized(accounts@),
    ensures
        instruction_data@.len() < 9 || instruction_data@[0] != WITHDRAW
            ==> r == Err::<(), ProgramError>(ProgramError::InvalidInstructionData),
        instruction_data@.len() >= 9 && instruction_data@[0] == WITHDRAW
            ==> r == withdraw_result(accounts@, le_u64_at(instruction_data@, 1)),
{
    if instruction_data.len() < 9 {
        return Err(ProgramError::InvalidInstructionData);
    }
    if instruction_data[0] == WITHDRAW {
        let amount = read_u64_le(instruction_data, 1);
        process_withdraw(accounts, amount)
    } else {
        Err(ProgramError::InvalidInstructionData)
    }
}

/// A user account passes as a vault: its owner, signing, withdraws up to the
/// amount stored where a vault keeps its balance.
pub proof fn user_account_passes_as_vault(accounts: Seq<AccountInfo>, amount: u64)
    requires
        accounts.len() == 2,
        accounts[1].is_signer,
        accounts[0].data@.len() >= VAULT_BALANCE_OFFSET + 8,
        accounts[0].data@[0] == USER_DISCRIMINATOR,
        bytes_at(accounts[0].data@, VAULT_OWNER_OFFSET as int, 32) == accounts[1].key@,
        le_u64_at(accounts[0].data@, VAULT_BALANCE_OFFSET as int) >= amount,
    ensures
        withdraw_result(accounts, amount) is Ok,
{
}

} // verus!
