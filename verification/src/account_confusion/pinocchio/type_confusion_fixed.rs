//! Withdrawals from a vault kept in raw account bytes that first check the
//! account's one-byte type tag, so an account of another type is refused.
//! Vault layout: type tag at 0, owner at 1..33, balance (little-endian) at 33..41.
use crate::bytes::{bytes_at, bytes_eq_key, le_u64_at, read_u64_le};
use crate::runtime::{AccountInfo, ProgramError, Pubkey};
use vstd::prelude::*;

verus! {

pub const WITHDRAW: u8 = 0;

/// The type tag of a vault account.
pub const VAULT_DISCRIMINATOR: u8 = 1;

/// The type tag of a user account.
pub const USER_DISCRIMINATOR: u8 = 2;

/// The type tag of a configuration account.
pub const CONFIG_DISCRIMINATOR: u8 = 3;

pub const DISCRIMINATOR_OFFSET: usize = 0;
pub const VAULT_OWNER_OFFSET: usize = 1;
pub const VAULT_BALANCE_OFFSET: usize = 33;

/// What `process_withdraw` answers: a wrong number of accounts, an unsigned
/// authority, an account not tagged as a vault, another owner, or a balance
/// below `amount` is refused; the withdrawal itself changes nothing.
pub open spec fn withdraw_result(accounts: Seq<AccountInfo>, amount: u64) -> Result<(), ProgramError> {
    if accounts.len() != 2 {
        Err(ProgramError::NotEnoughAccountKeys)
    } else if !accounts[1].is_signer {
        Err(ProgramError::MissingRequiredSignature)
    } else if accounts[0].data@[DISCRIMINATOR_OFFSET as int] != VAULT_DISCRIMINATOR {
        Err(ProgramError::InvalidAccountData)
    } else if bytes_at(accounts[0].data@, VAULT_OWNER_OFFSET as int, 32) != accounts[1].key@ {
        Err(ProgramError::InvalidAccountData)
    } else if le_u64_at(accounts[0].data@, VAULT_BALANCE_OFFSET as int) < amount {
        Err(ProgramError::InsufficientFunds)
    } else {
        Ok(())
    }
}

/// Whether the vault's bytes reach as far as each check reads them: the type tag
/// once the authority signed, the owner once the tag says vault, the balance once
/// the owner matches.
pub open spec fn vault_sized(accounts: Seq<AccountInfo>) -> bool {
    accounts.len() == 2 && accounts[1].is_signer ==> {
        let d = accounts[0].data@;
        &&& d.len() >= 1
        &&& d[DISCRIMINATOR_OFFSET as int] == VAULT_DISCRIMINATOR ==> {
            &&& d.len() >= VAULT_OWNER_OFFSET + 32
            &&& bytes_at(d, VAULT_OWNER_OFFSET as int, 32) == accounts[1].key@ ==> d.len() >= VAULT_BALANCE_OFFSET + 8
        }
    }
}

pub fn process_withdraw(accounts: &[AccountInfo], amount: u64) -> (r: Result<(), ProgramError>)
    requires
        vault_sized(accounts@),
    ensures
        r == withdraw_result(accounts@, amount),
{
    if accounts.len() != 2 {
        return Err(ProgramError::NotEnoughAccountKeys);
    }
    if !accounts[1].is_signer {
        return Err(ProgramError::MissingRequiredSignature);
    }
    if accounts[0].data[DISCRIMINATOR_OFFSET] != VAULT_DISCRIMINATOR {
        return Err(ProgramError::InvalidAccountData);
    }
    if !bytes_eq_key(&accounts[0].data, VAULT_OWNER_OFFSET, &accounts[1].key) {
        return Err(ProgramError::InvalidAccountData);
    }
    if read_u64_le(&accounts[0].data, VAULT_BALANCE_OFFSET) < amount {
        return Err(ProgramError::InsufficientFunds);
    }
    Ok(())
}

/// Decodes the instruction (tag, then the amount at bytes 1..9) and runs it;
/// data shorter than nine bytes is refused.
pub fn process_instruction(program_id: &Pubkey, accounts: &[AccountInfo], instruction_data: &[u8]) -> (r: Result<(), ProgramError>)
    requires
        instruction_data@.len() >= 9 && instruction_data@[0] == WITHDRAW ==> vault_sized(accounts@),
    ensures
        instruction_data@.len() < 9 || instruction_data@[0] != WITHDRAW
            ==> r == Err::<(), ProgramError>(ProgramError::InvalidInstructionData),
        instruction_data@.len() >= 9 && instruction_data@[0] == WITHDRAW
            ==> r == withdraw_result(accounts@, le_u64_at(instruction_data@, 1)),
{
    if instruction_data.len() < 9 {
        return Err(ProgramError::InvalidInstructionData);
    }
    if instruction_data[0] == WITHDRAW {
        let amount = read_u64_le(instruction_data, 1);
        process_withdraw(accounts, amount)
    } else {
        Err(ProgramError::InvalidInstructionData)
    }
}

/// No account tagged as another type than a vault passes a withdrawal.
pub proof fn only_vaults_withdraw(accounts: Seq<AccountInfo>, amount: u64)
    requires
        accounts.len() == 2,
        accounts[0].data@.len() > 0,
        accounts[0].data@[0] != VAULT_DISCRIMINATOR,
    ensures
        withdraw_result(accounts, amount) is Err,
{
}

} // verus!
