//! An instruction that runs only after an Ed25519 verification, earlier in the
//! same transaction, of the given signature over the given message by the
//! signer account's key: it looks the verification up in the instructions sysvar.
use crate::bytes::{bytes_at, bytes_eq_at, bytes_eq_key, le_u16_at};
use crate::outside::{load_current_index_checked, load_instruction_at_checked, sysvar_instruction, INSTRUCTIONS_SYSVAR_ID};
use crate::runtime::{AccountInfo, ProgramError, Pubkey};
use crate::text::suffix_equals;
use vstd::prelude::*;

verus! {

pub const VERIFY_AND_EXECUTE: u8 = 0;

/// The Ed25519 signature-verification program, `Ed25519SigVerify111111111111111111111111111`.
pub const ED25519_PROGRAM_ID: Pubkey = [
    3, 125, 70, 214, 124, 147, 251, 190, 18, 249, 66, 143, 131, 141, 64, 255, 5, 112, 116, 73, 39,
    244, 138, 100, 252, 202, 112, 68, 128, 0, 0, 0,
];

/// Where the public key, the signature and the message start in the data of an
/// Ed25519 verification of one signature (after its 16-byte header).
pub const PUBKEY_OFFSET: usize = 16;
pub const SIGNATURE_OFFSET: usize = 48;
pub const MESSAGE_OFFSET: usize = 112;

/// Whether the data of an Ed25519 verification instruction checked `signature`
/// over `message` by `key`.
pub open spec fn verifies(data: Seq<u8>, key: Seq<u8>, signature: Seq<u8>, message: Seq<u8>) -> bool {
    &&& data.len() >= MESSAGE_OFFSET
    &&& bytes_at(data, PUBKEY_OFFSET as int, 32) == key
    &&& bytes_at(data, SIGNATURE_OFFSET as int, 64) == signature
    &&& data.subrange(MESSAGE_OFFSET as int, data.len() as int) == message
}

/// Scanning the transaction's instructions from `i` up to (not including) `n`:
/// the verdict on the first Ed25519 verification met, `false` if there is none,
/// or the error of the first instruction that cannot be loaded.
pub open spec fn scan(sysvar: Seq<u8>, i: int, n: int, key: Seq<u8>, signature: Seq<u8>, message: Seq<u8>) -> Result<bool, ProgramError>
    decreases n - i,
{
    if i >= n || i < 0 {
        Ok(false)
    } else {
        match sysvar_instruction(i as usize, sysvar) {
            Err(e) => Err(e),
            Ok(ix) => if ix.0 == ED25519_PROGRAM_ID@ {
                Ok(verifies(ix.1, key, signature, message))
            } else {
                scan(sysvar, i + 1, n, key, signature, message)
            },
        }
    }
}

/// What `process_verify_and_execute` returns: it needs the signer and the
/// instructions sysvar, and a 64-byte signature followed by at least 32 bytes of
/// message; the sysvar must be the real one; and the first Ed25519 verification
/// before this instruction must have checked that signature over that message
/// by the signer account's key, else `MissingRequiredSignature`.
pub open spec fn verify_and_execute_result(accounts: Seq<AccountInfo>, data: Seq<u8>) -> Result<(), ProgramError> {
    if accounts.len() != 2 {
        Err(ProgramError::NotEnoughAccountKeys)
    } else if data.len() < 96 {
        Err(ProgramError::InvalidInstructionData)
    } else if accounts[1].key@ != INSTRUCTIONS_SYSVAR_ID@ {
        Err(ProgramError::UnsupportedSysvar)
    } else {
        let sysvar = accounts[1].data@;
        let current = le_u16_at(sysvar, sysvar.len() - 2);
        match scan(sysvar, 0, current as int, accounts[0].key@, data.subrange(0, 64), data.subrange(64, data.len() as int)) {
            Err(e) => Err(e),
            Ok(false) => Err(ProgramError::MissingRequiredSignature),
            Ok(true) => Ok(()),
        }
    }
}

/// Whether the instructions sysvar holds its current index wherever it is read.
pub open spec fn sysvar_sized(accounts: Seq<AccountInfo>, data: Seq<u8>) -> bool {
    accounts.len() == 2 && data.len() >= 96 && accounts[1].key@ == INSTRUCTIONS_SYSVAR_ID@
        ==> accounts[1].data@.len() >= 2
}

pub fn process_verify_and_execute(accounts: &Vec<AccountInfo>, data: &[u8]) -> (r: Result<(), ProgramError>)
    requires
        sysvar_sized(accounts@, data@),
    ensures
        r == verify_and_execute_result(accounts@, data@),
{
    if accounts.len() != 2 {
        return Err(ProgramError::NotEnoughAccountKeys);
    }
    if data.len() < 96 {
        return Err(ProgramError::InvalidInstructionData);
    }
    let signer = &accounts[0];
    let sysvar_account = &accounts[1];
    let current_index = load_current_index_checked(sysvar_account)?;
    let (signature, message) = data.split_at(64);
    let ghost sysvar = sysvar_account.data@;
    let ghost key = signer.key@;
    let mut verified = false;
    let mut i: u16 = 0;
    while i < current_index
        invariant_except_break
            i <= current_index,
            !verified,
            scan(sysvar, 0, current_index as int, key, signature@, message@)
                == scan(sysvar, i as int, current_index as int, key, signature@, message@),
        invariant
            sysvar == sysvar_account.data@,
            key == signer.key@,
            sysvar_account.key@ == INSTRUCTIONS_SYSVAR_ID@,
            signature@.len() == 64,
            accounts@.len() == 2,
            data@.len() >= 96,
            *signer == accounts@[0],
            *sysvar_account == accounts@[1],
            signature@ == data@.subrange(0, 64),
            message@ == data@.subrange(64, data@.len() as int),
            current_index == le_u16_at(sysvar, sysvar.len() - 2),
        ensures
            scan(sysvar, 0, current_index as int, key, signature@, message@) == Ok::<bool, ProgramError>(verified),
        decreases current_index - i,
    {
        let ix = load_instruction_at_checked(i as usize, sysvar_account)?;
        if crate::bytes::keys_eq(&ix.program_id, &ED25519_PROGRAM_ID) {
            if ix.data.len() >= MESSAGE_OFFSET {
                if bytes_eq_key(&ix.data, PUBKEY_OFFSET, &signer.key) && bytes_eq_at(&ix.data, SIGNATURE_OFFSET, signature)
                    && suffix_equals(&ix.data, MESSAGE_OFFSET, message) {
                    verified = true;
                }
            }
            break;
        }
        i = i + 1;
    }
    if !verified {
        return Err(ProgramError::MissingRequiredSignature);
    }
    Ok(())
}

/// Runs the single instruction on the data after its tag.
pub fn process_instruction(program_id: &Pubkey, accounts: &Vec<AccountInfo>, instruction_data: &[u8]) -> (r: Result<(), ProgramError>)
    requires
        instruction_data@.len() > 0 && instruction_data@[0] == VERIFY_AND_EXECUTE
            ==> sysvar_sized(accounts@, instruction_data@.subrange(1, instruction_data@.len() as int)),
    ensures
        instruction_data@.len() == 0 || instruction_data@[0] != VERIFY_AND_EXECUTE
            ==> r == Err::<(), ProgramError>(ProgramError::InvalidInstructionData),
        instruction_data@.len() > 0 && instruction_data@[0] == VERIFY_AND_EXECUTE
            ==> r == verify_and_execute_result(accounts@, instruction_data@.subrange(1, instruction_data@.len() as int)),
{
    if instruction_data.len() == 0 {
        return Err(ProgramError::InvalidInstructionData);
    }
    if instruction_data[0] == VERIFY_AND_EXECUTE {
        let rest = slice_from(instruction_data, 1);
        process_verify_and_execute(accounts, rest)
    } else {
        Err(ProgramError::InvalidInstructionData)
    }
}

/// `data[start..]`.
pub fn slice_from(data: &[u8], start: usize) -> (s: &[u8])
    requires
        start <= data@.len(),
    ensures
        s@ == data@.subrange(start as int, data@.len() as int),
{
    let (_, tail) = data.split_at(start);
    tail
}

} // verus!
