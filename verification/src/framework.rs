//! The checks that Anchor's account validation performs before an instruction
//! runs, the errors it reports, and the cross-program calls that instructions
//! ask the runtime to make.
use crate::outside::{created_address, derived_address, seeds_view};
use crate::runtime::{AccountInfo, ProgramError, Pubkey};
use vstd::prelude::*;

verus! {

/// The errors Anchor itself reports while validating accounts.
#[derive(Clone, Copy, Debug, PartialEq, Eq)]
pub enum ErrorCode {
    /// A `Signer` account did not sign the transaction.
    AccountNotSigner,
    /// A typed account does not exist yet: it belongs to the system program and
    /// holds no lamports.
    AccountNotInitialized,
    /// A typed account is owned by another program.
    AccountOwnedByWrongProgram,
    /// A `has_one` field does not hold the named account's key.
    ConstraintHasOne,
    /// A `constraint = ..` expression was false.
    ConstraintRaw,
    /// The account is not the address derived from its `seeds`.
    ConstraintSeeds,
    /// The account is not at its required `address`.
    ConstraintAddress,
    /// A `Program<T>` account is not the expected program.
    InvalidProgramId,
    /// A `Program<T>` account is not executable.
    InvalidProgramExecutable,
    /// Account data is shorter than a discriminator.
    AccountDiscriminatorNotFound,
    /// Account data starts with another type's discriminator.
    AccountDiscriminatorMismatch,
    /// Account data does not decode as the expected type.
    AccountDidNotDeserialize,
}

/// The error an Anchor instruction fails with: one of Anchor's own, one of the
/// program's error codes, or a runtime error.
#[derive(Clone, Copy, Debug, PartialEq, Eq)]
pub enum Error<E> {
    Anchor(ErrorCode),
    Program(E),
    Runtime(ProgramError),
}

/// The program-error type of a program that defines no error codes.
pub type NoProgramError = ();

/// The error the system program returns when asked to create an account that
/// already exists (`SystemError::AccountAlreadyInUse`).
pub const ACCOUNT_ALREADY_IN_USE: u32 = 0;

/// The system program's address.
pub const SYSTEM_PROGRAM_ID: Pubkey = [
    0, 0, 0, 0, 0, 0, 0, 0, 0, 0, 0, 0, 0, 0, 0, 0, 0, 0, 0, 0, 0, 0, 0, 0, 0, 0, 0, 0, 0, 0, 0, 0,
];

/// A deserialized account of a program type `T`.
#[derive(Clone, Debug, PartialEq, Eq)]
pub struct Account<T> {
    pub key: Pubkey,
    pub lamports: u64,
    pub data: T,
}

/// The fields of a token account that the programs read: which mint its
/// tokens are of, and who owns them.
#[derive(Clone, Copy, Debug, PartialEq, Eq)]
pub struct TokenAccount {
    pub mint: Pubkey,
    pub owner: Pubkey,
}

/// The field of a token mint that the programs read: who may mint.
#[derive(Clone, Copy, Debug, PartialEq, Eq)]
pub struct Mint {
    pub mint_authority: Option<Pubkey>,
}

/// A transfer of lamports that an instruction asks the system program to make.
#[derive(Clone, Copy, Debug, PartialEq, Eq)]
pub struct SystemTransfer {
    pub from: Pubkey,
    pub to: Pubkey,
    pub lamports: u64,
}

/// A call that an instruction asks the token program to make. `signed_by_pool`
/// says whether the program signs for its pool address with the pool's seeds.
#[derive(Clone, Copy, Debug, PartialEq, Eq)]
pub enum TokenInstruction {
    Transfer { from: Pubkey, to: Pubkey, authority: Pubkey, amount: u64, signed_by_pool: bool },
    MintTo { mint: Pubkey, to: Pubkey, authority: Pubkey, amount: u64 },
    Burn { mint: Pubkey, from: Pubkey, authority: Pubkey, amount: u64 },
}

/// An account an instruction names: its address and whether the instruction
/// needs it to sign and to be writable.
#[derive(Clone, Copy, Debug, PartialEq, Eq)]
pub struct AccountMeta {
    pub pubkey: Pubkey,
    pub is_signer: bool,
    pub is_writable: bool,
}

/// An instruction that a program asks the runtime to invoke: the program to
/// call, the accounts it names and its data.
#[derive(Clone, Debug, PartialEq, Eq)]
pub struct Instruction {
    pub program_id: Pubkey,
    pub accounts: Vec<AccountMeta>,
    pub data: Vec<u8>,
}

/// Anchor's `Program<T>` check: the account must be the program `id`, and executable.
pub fn check_program<E>(account: &AccountInfo, id: &Pubkey) -> (r: Result<(), Error<E>>)
    ensures
        account.key@ != id@ ==> r == Err::<(), Error<E>>(Error::Anchor(ErrorCode::InvalidProgramId)),
        account.key@ == id@ && !account.executable
            ==> r == Err::<(), Error<E>>(Error::Anchor(ErrorCode::InvalidProgramExecutable)),
        account.key@ == id@ && account.executable ==> r is Ok,
{
    if !crate::bytes::keys_eq(&account.key, id) {
        return Err(Error::Anchor(ErrorCode::InvalidProgramId));
    }
    if !account.executable {
        return Err(Error::Anchor(ErrorCode::InvalidProgramExecutable));
    }
    Ok(())
}

/// The error Anchor reports while loading `account` as a typed account of
/// `size` bytes after the 8-byte `discriminator`, owned by `program_id`, if any.
pub open spec fn account_load_error(account: AccountInfo, program_id: Seq<u8>, discriminator: Seq<u8>, size: int) -> Option<ErrorCode> {
    if account.owner@ == SYSTEM_PROGRAM_ID@ && account.lamports == 0 {
        Some(ErrorCode::AccountNotInitialized)
    } else if account.owner@ != program_id {
        Some(ErrorCode::AccountOwnedByWrongProgram)
    } else if account.data@.len() < 8 {
        Some(ErrorCode::AccountDiscriminatorNotFound)
    } else if account.data@.subrange(0, 8) != discriminator {
        Some(ErrorCode::AccountDiscriminatorMismatch)
    } else if account.data@.len() < 8 + size {
        Some(ErrorCode::AccountDidNotDeserialize)
    } else {
        None
    }
}

/// Anchor's loading of an `Account<T>`: the account must exist, belong to the
/// program, start with the type's discriminator and hold at least the `size`
/// bytes of its fields after it.
pub fn check_account<E>(account: &AccountInfo, program_id: &Pubkey, discriminator: &[u8; 8], size: usize) -> (r: Result<(), Error<E>>)
    requires
        size <= usize::MAX - 8,
    ensures
        match account_load_error(*account, program_id@, discriminator@, size as int) {
            Some(e) => r == Err::<(), Error<E>>(Error::Anchor(e)),
            None => r is Ok,
        },
{
    if crate::bytes::keys_eq(&account.owner, &SYSTEM_PROGRAM_ID) && account.lamports == 0 {
        return Err(Error::Anchor(ErrorCode::AccountNotInitialized));
    }
    if !crate::bytes::keys_eq(&account.owner, program_id) {
        return Err(Error::Anchor(ErrorCode::AccountOwnedByWrongProgram));
    }
    if account.data.len() < 8 {
        return Err(Error::Anchor(ErrorCode::AccountDiscriminatorNotFound));
    }
    if !crate::bytes::bytes_eq_at(&account.data, 0, discriminator) {
        return Err(Error::Anchor(ErrorCode::AccountDiscriminatorMismatch));
    }
    if account.data.len() < 8 + size {
        return Err(Error::Anchor(ErrorCode::AccountDidNotDeserialize));
    }
    Ok(())
}

/// Whether `key` is the address derived from `seeds` for `program_id`.
pub open spec fn is_pda(key: Seq<u8>, seeds: Seq<Seq<u8>>, program_id: Seq<u8>) -> bool {
    derived_address(seeds, program_id) matches Some(found) && found.0 == key
}

/// The bump seed derived with the address for `seeds` and `program_id`.
pub open spec fn pda_bump(seeds: Seq<Seq<u8>>, program_id: Seq<u8>) -> u8 {
    derived_address(seeds, program_id).unwrap().1
}

/// Anchor's `Signer` check.
pub fn check_signer<E>(account: &AccountInfo) -> (r: Result<(), Error<E>>)
    ensures
        account.is_signer ==> r is Ok,
        !account.is_signer ==> r == Err::<(), Error<E>>(Error::Anchor(ErrorCode::AccountNotSigner)),
{
    if account.is_signer {
        Ok(())
    } else {
        Err(Error::Anchor(ErrorCode::AccountNotSigner))
    }
}

/// Anchor's `seeds = [..], bump` check: `key` must be the address derived from
/// `seeds` for `program_id`; the bump found with it is returned.
pub fn check_seeds<E>(key: &Pubkey, seeds: &Vec<Vec<u8>>, program_id: &Pubkey) -> (r: Result<u8, Error<E>>)
    ensures
        is_pda(key@, seeds_view(seeds@), program_id@) ==> r == Ok::<u8, Error<E>>(
            pda_bump(seeds_view(seeds@), program_id@),
        ),
        !is_pda(key@, seeds_view(seeds@), program_id@) ==> r == Err::<u8, Error<E>>(
            Error::Anchor(ErrorCode::ConstraintSeeds),
        ),
{
    let found = crate::outside::try_find_program_address(seeds, program_id);
    check_derived_address(key, found)
}

/// Whether `key` is the address created from `seeds` followed by the one-byte
/// seed `bump`, for `program_id`.
pub open spec fn is_created_address(key: Seq<u8>, seeds: Seq<Seq<u8>>, bump: u8, program_id: Seq<u8>) -> bool {
    created_address(seeds.push(seq![bump]), program_id) == Some(key)
}

/// Anchor's `seeds = [..], bump = b` check: `key` must be the address created
/// from `seeds` and the stored bump `b`.
pub fn check_seeds_with_bump<E>(key: &Pubkey, seeds: Vec<Vec<u8>>, bump: u8, program_id: &Pubkey) -> (r: Result<(), Error<E>>)
    ensures
        is_created_address(key@, seeds_view(seeds@), bump, program_id@) ==> r is Ok,
        !is_created_address(key@, seeds_view(seeds@), bump, program_id@) ==> r == Err::<(), Error<E>>(
            Error::Anchor(ErrorCode::ConstraintSeeds),
        ),
{
    let mut all = seeds;
    let ghost prefix = seeds_view(all@);
    let mut b: Vec<u8> = Vec::new();
    b.push(bump);
    all.push(b);
    assert(seeds_view(all@) =~= prefix.push(seq![bump]));
    match crate::outside::create_program_address(&all, program_id) {
        Some(k) => {
            if crate::bytes::keys_eq(&k, key) {
                Ok(())
            } else {
                Err(Error::Anchor(ErrorCode::ConstraintSeeds))
            }
        },
        None => Err(Error::Anchor(ErrorCode::ConstraintSeeds)),
    }
}

/// The comparison behind the `seeds` check, on an address already derived.
pub fn check_derived_address<E>(key: &Pubkey, found: Option<(Pubkey, u8)>) -> (r: Result<u8, Error<E>>)
    ensures
        match found {
            Some(p) => if p.0@ == key@ {
                r == Ok::<u8, Error<E>>(p.1)
            } else {
                r == Err::<u8, Error<E>>(Error::Anchor(ErrorCode::ConstraintSeeds))
            },
            None => r == Err::<u8, Error<E>>(Error::Anchor(ErrorCode::ConstraintSeeds)),
        },
{
    match found {
        Some(p) => {
            if crate::bytes::keys_eq(&p.0, key) {
                Ok(p.1)
            } else {
                Err(Error::Anchor(ErrorCode::ConstraintSeeds))
            }
        },
        None => Err(Error::Anchor(ErrorCode::ConstraintSeeds)),
    }
}

/// Whether an account is still unused: no data, and owned by the system program.
pub open spec fn is_unused(account: AccountInfo) -> bool {
    account.data@.len() == 0 && account.owner@ == SYSTEM_PROGRAM_ID@
}

/// The error of creating an account that is already in use.
pub open spec fn in_use_error<E>() -> Error<E> {
    Error::Runtime(ProgramError::Custom(ACCOUNT_ALREADY_IN_USE))
}

/// Anchor's `init`: the system program creates the account, and refuses one that
/// already holds data or belongs to a program.
pub fn check_uninitialized<E>(account: &AccountInfo) -> (r: Result<(), Error<E>>)
    ensures
        is_unused(*account) ==> r is Ok,
        !is_unused(*account) ==> r == Err::<(), Error<E>>(in_use_error()),
{
    if account.data.len() == 0 && crate::bytes::keys_eq(&account.owner, &SYSTEM_PROGRAM_ID) {
        Ok(())
    } else {
        Err(Error::Runtime(ProgramError::Custom(ACCOUNT_ALREADY_IN_USE)))
    }
}

/// Anchor's `init` at an address that is not derived: the system program
/// creates the account only with that address's signature.
pub fn check_creation_signer<E>(account: &AccountInfo) -> (r: Result<(), Error<E>>)
    ensures
        account.is_signer ==> r is Ok,
        !account.is_signer ==> r == Err::<(), Error<E>>(Error::Runtime(ProgramError::MissingRequiredSignature)),
{
    if account.is_signer {
        Ok(())
    } else {
        Err(Error::Runtime(ProgramError::MissingRequiredSignature))
    }
}

/// A seed holding the given bytes.
pub fn seed(bytes: &[u8]) -> (s: Vec<u8>)
    ensures
        s@ == bytes@,
{
    let n = bytes.len();
    let mut s: Vec<u8> = Vec::new();
    let mut i: usize = 0;
    while i < n
        invariant
            n == bytes@.len(),
            i <= n,
            s@ == bytes@.subrange(0, i as int),
        decreases n - i,
    {
        s.push(bytes[i]);
        i = i + 1;
        assert(s@ =~= bytes@.subrange(0, i as int));
    }
    assert(s@ =~= bytes@);
    s
}

/// The list of two seeds `a` and `b`.
pub fn seed_list2(a: &[u8], b: &[u8]) -> (s: Vec<Vec<u8>>)
    ensures
        seeds_view(s@) == seq![a@, b@],
{
    let mut s: Vec<Vec<u8>> = Vec::new();
    s.push(seed(a));
    s.push(seed(b));
    assert(seeds_view(s@) =~= seq![a@, b@]);
    s
}

/// The list of the single seed `a`.
pub fn seed_list1(a: &[u8]) -> (s: Vec<Vec<u8>>)
    ensures
        seeds_view(s@) == seq![a@],
{
    let mut s: Vec<Vec<u8>> = Vec::new();
    s.push(seed(a));
    assert(seeds_view(s@) =~= seq![a@]);
    s
}

} // verus!
