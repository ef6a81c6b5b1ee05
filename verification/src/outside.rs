//! The calls this library makes into `anchor_lang` (and, through it, into
//! `solana_program`), each behind a contract that Verus takes on trust.
use crate::runtime::{AccountInfo, ProgramError, Pubkey};
use anchor_lang::solana_program::program_error::ProgramError as SolProgramError;
use vstd::prelude::*;

verus! {

/// The address and bump seed that `Pubkey::try_find_program_address` derives from
/// `seeds` and `program_id`, or `None` when it finds none.
pub uninterp spec fn derived_address(seeds: Seq<Seq<u8>>, program_id: Seq<u8>) -> Option<(Seq<u8>, u8)>;

/// The address `Pubkey::create_program_address` computes from `seeds` (the last of
/// which is a bump byte) and `program_id`, or `None` when it returns an error.
pub uninterp spec fn created_address(seeds: Seq<Seq<u8>>, program_id: Seq<u8>) -> Option<Seq<u8>>;

/// The text that `Pubkey`'s `Display` writes for `key` (its base58 encoding), as bytes.
pub uninterp spec fn base58_text(key: Seq<u8>) -> Seq<u8>;

/// The program id and data of the instruction at `index` that
/// `load_instruction_at_checked` decodes from the instructions sysvar data,
/// or the error it returns for that data.
pub uninterp spec fn sysvar_instruction(index: usize, data: Seq<u8>) -> Result<(Seq<u8>, Seq<u8>), ProgramError>;

/// The view of a list of seeds.
pub open spec fn seeds_view(seeds: Seq<Vec<u8>>) -> Seq<Seq<u8>> {
    seeds.map_values(|s: Vec<u8>| s@)
}

/// What `load_current_index_checked` returns for an account with this key and
/// data: the little-endian `u16` in the last two bytes of the instructions sysvar.
pub open spec fn current_index_result(key: Seq<u8>, data: Seq<u8>) -> Result<u16, ProgramError> {
    if key == INSTRUCTIONS_SYSVAR_ID@ {
        Ok(crate::bytes::le_u16_at(data, data.len() - 2))
    } else {
        Err(ProgramError::UnsupportedSysvar)
    }
}

/// The address of the instructions sysvar, `Sysvar1nstructions1111111111111111111111111`.
pub const INSTRUCTIONS_SYSVAR_ID: Pubkey = [
    6, 167, 213, 23, 24, 123, 209, 102, 53, 218, 212, 4, 85, 253, 194, 192, 193, 36, 198, 143,
    33, 86, 117, 165, 219, 186, 203, 95, 8, 0, 0, 0,
];

/// An instruction of the running transaction, as the instructions sysvar records it.
pub struct LoadedInstruction {
    pub program_id: Pubkey,
    pub data: Vec<u8>,
}

/// Calls `Pubkey::try_find_program_address(seeds, program_id)`.
/// Claimed: the result is the name `derived_address` applied to the seeds and the
/// program id. The source computes it from these two alone (a SHA-256 over the
/// seeds, a bump byte and the program id, rejected while on the curve), returns
/// `None` rather than panicking when no bump works, and does not panic.
#[verifier::external_body]
pub(crate) fn try_find_program_address(seeds: &Vec<Vec<u8>>, program_id: &Pubkey) -> (r: Option<(Pubkey, u8)>)
    ensures
        match r {
            Some(found) => derived_address(seeds_view(seeds@), program_id@) == Some((found.0@, found.1)),
            None => derived_address(seeds_view(seeds@), program_id@) is None,
        },
{
    let slices: Vec<&[u8]> = seeds.iter().map(|s| s.as_slice()).collect();
    let pid = anchor_lang::prelude::Pubkey::new_from_array(*program_id);
    anchor_lang::prelude::Pubkey::try_find_program_address(&slices, &pid).map(|(k, b)| (k.to_bytes(), b))
}

/// Calls `Pubkey::create_program_address(seeds, program_id)`.
/// Claimed: an `Ok` address is the name `created_address` applied to the seeds and
/// the program id, and an error (too many or too long seeds, or a point on the
/// curve) is `None` there. The source computes it from these two alone and does
/// not panic.
#[verifier::external_body]
pub(crate) fn create_program_address(seeds: &Vec<Vec<u8>>, program_id: &Pubkey) -> (r: Option<Pubkey>)
    ensures
        match r {
            Some(k) => created_address(seeds_view(seeds@), program_id@) == Some(k@),
            None => created_address(seeds_view(seeds@), program_id@) is None,
        },
{
    let slices: Vec<&[u8]> = seeds.iter().map(|s| s.as_slice()).collect();
    let pid = anchor_lang::prelude::Pubkey::new_from_array(*program_id);
    anchor_lang::prelude::Pubkey::create_program_address(&slices, &pid).ok().map(|k| k.to_bytes())
}

/// Calls `Pubkey::to_string` (base58) and takes the bytes of the text.
/// Claimed: the result is the name `base58_text` applied to the key.
#[verifier::external_body]
pub(crate) fn pubkey_base58(key: &Pubkey) -> (r: Vec<u8>)
    ensures
        r@ == base58_text(key@),
{
    anchor_lang::prelude::Pubkey::new_from_array(*key).to_string().into_bytes()
}

/// Calls `sysvar::instructions::load_current_index_checked` on an account with the
/// given key and data. Claimed, as its source shows: `UnsupportedSysvar` for any
/// other key than the instructions sysvar's; otherwise the little-endian `u16` in
/// the last two data bytes. It slices the last two bytes, so it needs two.
#[verifier::external_body]
pub(crate) fn load_current_index_checked(sysvar: &AccountInfo) -> (r: Result<u16, ProgramError>)
    requires
        sysvar.key@ == INSTRUCTIONS_SYSVAR_ID@ ==> sysvar.data@.len() >= 2,
    ensures
        r == current_index_result(sysvar.key@, sysvar.data@),
{
    let key = anchor_lang::prelude::Pubkey::new_from_array(sysvar.key);
    let owner = anchor_lang::prelude::Pubkey::new_from_array(sysvar.owner);
    let (mut lamports, mut data) = (sysvar.lamports, sysvar.data.clone());
    let info = anchor_lang::prelude::AccountInfo::new(&key, sysvar.is_signer, sysvar.is_writable, &mut lamports, &mut data, &owner, sysvar.executable, 0);
    anchor_lang::solana_program::sysvar::instructions::load_current_index_checked(&info).map_err(|e| match e {
        SolProgramError::UnsupportedSysvar => ProgramError::UnsupportedSysvar,
        _ => ProgramError::AccountBorrowFailed,
    })
}

/// Calls `sysvar::instructions::load_instruction_at_checked(index, ..)` on an account
/// with the given key and data. Claimed: `UnsupportedSysvar` for any other key than
/// the instructions sysvar's (as its source shows); otherwise the program id and
/// data of the decoded instruction, or the decoding error, are the name
/// `sysvar_instruction` applied to the index and the data.
#[verifier::external_body]
pub(crate) fn load_instruction_at_checked(index: usize, sysvar: &AccountInfo) -> (r: Result<LoadedInstruction, ProgramError>)
    ensures
        sysvar.key@ != INSTRUCTIONS_SYSVAR_ID@ ==> r matches Err(ProgramError::UnsupportedSysvar),
        sysvar.key@ == INSTRUCTIONS_SYSVAR_ID@ ==> match r {
            Ok(ix) => sysvar_instruction(index, sysvar.data@) matches Ok(p) && p.0 == ix.program_id@ && p.1 == ix.data@,
            Err(e) => sysvar_instruction(index, sysvar.data@) matches Err(e2) && e2 == e,
        },
{
    let key = anchor_lang::prelude::Pubkey::new_from_array(sysvar.key);
    let owner = anchor_lang::prelude::Pubkey::new_from_array(sysvar.owner);
    let (mut lamports, mut data) = (sysvar.lamports, sysvar.data.clone());
    let info = anchor_lang::prelude::AccountInfo::new(&key, sysvar.is_signer, sysvar.is_writable, &mut lamports, &mut data, &owner, sysvar.executable, 0);
    match anchor_lang::solana_program::sysvar::instructions::load_instruction_at_checked(index, &info) {
        Ok(ix) => Ok(LoadedInstruction { program_id: ix.program_id.to_bytes(), data: ix.data }),
        Err(SolProgramError::UnsupportedSysvar) => Err(ProgramError::UnsupportedSysvar),
        Err(SolProgramError::InvalidArgument) => Err(ProgramError::InvalidArgument),
        Err(SolProgramError::InvalidInstructionData) => Err(ProgramError::InvalidInstructionData),
        Err(_) => Err(ProgramError::AccountBorrowFailed),
    }
}

} // verus!
