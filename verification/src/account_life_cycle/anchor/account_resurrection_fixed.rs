//! An escrow closed with Anchor's `close`, which hands the account back to the
//! system program with no data as well as no lamports, so a refund cannot bring
//! the old escrow back: it no longer loads as an escrow.
//! Escrow bytes: discriminator at 0..8, owner at 8..40, amount at 40..48,
//! claimed flag at 48.
use crate::bytes::{bytes_at, bytes_eq_key, put_bytes, u64_le_bytes, u64_to_le_bytes};
use crate::framework::{
    account_load_error, check_account, check_seeds, SYSTEM_PROGRAM_ID, check_signer, check_uninitialized, in_use_error, is_pda, is_unused, seed_list2,
    Account, Error, ErrorCode, SystemTransfer,
};
use crate::runtime::{AccountInfo, Pubkey};
use vstd::prelude::*;

verus! {

/// The program's address, `J3Ef3qxyeSK24Sk9deRbpRKfvbQ5xE1e4byYi6ZBuXoT`.
pub const ID: Pubkey = [
    253, 41, 71, 192, 23, 6, 170, 181, 156, 0, 116, 239, 118, 208, 205, 199, 35, 53, 177, 180, 37,
    10, 179, 81, 62, 161, 204, 208, 236, 195, 104, 62,
];

/// The bytes of `"escrow"`.
pub const ESCROW_SEED: [u8; 6] = [101, 115, 99, 114, 111, 119];

#[derive(Clone, Copy, Debug, PartialEq, Eq)]
pub struct Escrow {
    pub owner: Pubkey,
    pub amount: u64,
    pub claimed: bool,
}

#[derive(Clone, Copy, Debug, PartialEq, Eq)]
pub enum EscrowError {
    AlreadyClaimed,
}

/// The seeds of an escrow's address: `"escrow"` and the owner's key.
pub open spec fn escrow_seeds(owner: Seq<u8>) -> Seq<Seq<u8>> {
    seq![ESCROW_SEED@, owner]
}

pub struct CreateEscrow {
    pub escrow: AccountInfo,
    pub owner: AccountInfo,
}

/// The first eight bytes of an `Escrow` account: the start of SHA-256 of `"account:Escrow"`.
pub const ESCROW_DISCRIMINATOR: [u8; 8] = [31, 213, 123, 187, 186, 22, 218, 155];

/// The bytes an escrow's fields take after the discriminator.
pub const ESCROW_SIZE: usize = 41;

pub const OWNER_OFFSET: usize = 8;
pub const CLAIMED_OFFSET: usize = 48;

/// Accounts of `claim` and `close_escrow`: the escrow as the runtime hands it
/// over, loaded as a typed escrow by the instruction, and its signing owner.
pub struct Claim {
    pub escrow: AccountInfo,
    pub owner: AccountInfo,
}

pub struct CloseEscrow {
    pub escrow: AccountInfo,
    pub owner: AccountInfo,
}

/// The bytes of an escrow account holding `e`.
pub open spec fn escrow_bytes(e: Escrow) -> Seq<u8> {
    ESCROW_DISCRIMINATOR@ + e.owner@ + u64_le_bytes(e.amount) + seq![if e.claimed { 1u8 } else { 0u8 }]
}

/// Writes the bytes of an escrow account holding `e`.
pub fn encode_escrow(e: &Escrow) -> (d: Vec<u8>)
    ensures
        d@ == escrow_bytes(*e),
{
    let mut d: Vec<u8> = Vec::new();
    crate::text::push_bytes(&mut d, &ESCROW_DISCRIMINATOR);
    crate::text::push_bytes(&mut d, &e.owner);
    crate::text::push_bytes(&mut d, &u64_to_le_bytes(e.amount));
    d.push(if e.claimed { 1u8 } else { 0u8 });
    d
}

/// Why an account does not load as an escrow, if it does not: Anchor's account
/// checks, then a claimed flag that is no boolean.
pub open spec fn escrow_load_error(account: AccountInfo) -> Option<ErrorCode> {
    match account_load_error(account, ID@, ESCROW_DISCRIMINATOR@, ESCROW_SIZE as int) {
        Some(e) => Some(e),
        None => if account.data@[CLAIMED_OFFSET as int] > 1 { Some(ErrorCode::AccountDidNotDeserialize) } else { None },
    }
}

fn load_escrow<E>(account: &AccountInfo) -> (r: Result<(), Error<E>>)
    ensures
        match escrow_load_error(*account) {
            Some(e) => r == Err::<(), Error<E>>(Error::Anchor(e)),
            None => r is Ok,
        },
{
    check_account(account, &ID, &ESCROW_DISCRIMINATOR, ESCROW_SIZE)?;
    if account.data[CLAIMED_OFFSET] > 1 {
        return Err(Error::Anchor(ErrorCode::AccountDidNotDeserialize));
    }
    Ok(())
}

/// The checks `claim` and `close_escrow` share, in Anchor's order: the escrow
/// loads, the owner signs, and the escrow's recorded owner is that owner.
pub open spec fn owner_check_error(escrow: AccountInfo, owner: AccountInfo) -> Option<ErrorCode> {
    match escrow_load_error(escrow) {
        Some(e) => Some(e),
        None => if !owner.is_signer {
            Some(ErrorCode::AccountNotSigner)
        } else if bytes_at(escrow.data@, OWNER_OFFSET as int, 32) != owner.key@ {
            Some(ErrorCode::ConstraintHasOne)
        } else {
            None
        },
    }
}

fn check_owner<E>(escrow: &AccountInfo, owner: &AccountInfo) -> (r: Result<(), Error<E>>)
    ensures
        match owner_check_error(*escrow, *owner) {
            Some(e) => r == Err::<(), Error<E>>(Error::Anchor(e)),
            None => r is Ok,
        },
{
    load_escrow(escrow)?;
    check_signer(owner)?;
    if !bytes_eq_key(&escrow.data, OWNER_OFFSET, &owner.key) {
        return Err(Error::Anchor(ErrorCode::ConstraintHasOne));
    }
    Ok(())
}

/// What `create_escrow` returns: the unclaimed escrow of `amount` for the signing
/// owner and the transfer funding it, or the first failed check.
pub open spec fn create_escrow_result(ctx: CreateEscrow, amount: u64) -> Result<(Escrow, SystemTransfer), Error<EscrowError>> {
    if !ctx.owner.is_signer {
        Err(Error::Anchor(ErrorCode::AccountNotSigner))
    } else if !is_pda(ctx.escrow.key@, escrow_seeds(ctx.owner.key@), ID@) {
        Err(Error::Anchor(ErrorCode::ConstraintSeeds))
    } else if !is_unused(ctx.escrow) {
        Err(in_use_error())
    } else {
        Ok((
            Escrow { owner: ctx.owner.key, amount, claimed: false },
            SystemTransfer { from: ctx.owner.key, to: ctx.escrow.key, lamports: amount },
        ))
    }
}

pub fn create_escrow(ctx: &CreateEscrow, amount: u64) -> (r: Result<(Escrow, SystemTransfer), Error<EscrowError>>)
    ensures
        r == create_escrow_result(*ctx, amount),
{
    check_signer(&ctx.owner)?;
    check_seeds(&ctx.escrow.key, &seed_list2(&ESCROW_SEED, &ctx.owner.key), &ID)?;
    check_uninitialized(&ctx.escrow)?;
    Ok((
        Escrow { owner: ctx.owner.key, amount, claimed: false },
        SystemTransfer { from: ctx.owner.key, to: ctx.escrow.key, lamports: amount },
    ))
}

/// The lamports a claim pays: all above `min_rent`.
pub open spec fn claimable(lamports: u64, min_rent: u64) -> u64 {
    if lamports > min_rent { (lamports - min_rent) as u64 } else { 0 }
}

/// Marks the escrow claimed and pays its owner every lamport above `min_rent`
/// (what `Rent::minimum_balance` gives for the escrow's size); only once.
pub fn claim(ctx: &mut Claim, min_rent: u64) -> (r: Result<(), Error<EscrowError>>)
    requires
        owner_check_error(old(ctx).escrow, old(ctx).owner) is None && old(ctx).escrow.data@[CLAIMED_OFFSET as int] == 0
            ==> old(ctx).owner.lamports + claimable(old(ctx).escrow.lamports, min_rent) <= u64::MAX,
    ensures
        r is Err ==> *final(ctx) == *old(ctx),
        owner_check_error(old(ctx).escrow, old(ctx).owner) matches Some(e) ==> r == Err::<(), Error<EscrowError>>(Error::Anchor(e)),
        owner_check_error(old(ctx).escrow, old(ctx).owner) is None && old(ctx).escrow.data@[CLAIMED_OFFSET as int] == 1
            ==> r == Err::<(), Error<EscrowError>>(Error::Program(EscrowError::AlreadyClaimed)),
        owner_check_error(old(ctx).escrow, old(ctx).owner) is None && old(ctx).escrow.data@[CLAIMED_OFFSET as int] == 0 ==> {
            let c = claimable(old(ctx).escrow.lamports, min_rent);
            &&& r is Ok
            &&& final(ctx).escrow == (AccountInfo {
                lamports: (old(ctx).escrow.lamports - c) as u64,
                data: final(ctx).escrow.data,
                ..old(ctx).escrow
            })
            &&& final(ctx).escrow.data@ == old(ctx).escrow.data@.update(CLAIMED_OFFSET as int, 1u8)
            &&& final(ctx).owner == (AccountInfo { lamports: (old(ctx).owner.lamports + c) as u64, ..old(ctx).owner })
        },
{
    check_owner(&ctx.escrow, &ctx.owner)?;
    if ctx.escrow.data[CLAIMED_OFFSET] == 1 {
        return Err(Error::Program(EscrowError::AlreadyClaimed));
    }
    ctx.escrow.data.set(CLAIMED_OFFSET, 1u8);
    let claimable = ctx.escrow.lamports.saturating_sub(min_rent);
    ctx.escrow.lamports = ctx.escrow.lamports - claimable;
    ctx.owner.lamports = ctx.owner.lamports + claimable;
    Ok(())
}

/// Whether `account` is what closing leaves behind: an account of the system
/// program with no data.
pub open spec fn is_closed(account: AccountInfo) -> bool {
    account.owner@ == SYSTEM_PROGRAM_ID@ && account.data@.len() == 0
}

/// Closes the escrow for its signing owner: every lamport goes to the owner, and
/// the account goes back to the system program with no data.
pub fn close_escrow(ctx: &mut CloseEscrow) -> (r: Result<(), Error<EscrowError>>)
    requires
        owner_check_error(old(ctx).escrow, old(ctx).owner) is None
            ==> old(ctx).owner.lamports + old(ctx).escrow.lamports <= u64::MAX,
    ensures
        r is Err ==> *final(ctx) == *old(ctx),
        owner_check_error(old(ctx).escrow, old(ctx).owner) matches Some(e) ==> r == Err::<(), Error<EscrowError>>(Error::Anchor(e)),
        owner_check_error(old(ctx).escrow, old(ctx).owner) is None ==> {
            &&& r is Ok
            &&& final(ctx).escrow == (AccountInfo { lamports: 0, owner: SYSTEM_PROGRAM_ID, data: final(ctx).escrow.data, ..old(ctx).escrow })
            &&& is_closed(final(ctx).escrow)
            &&& final(ctx).owner == (AccountInfo { lamports: (old(ctx).owner.lamports + old(ctx).escrow.lamports) as u64, ..old(ctx).owner })
        },
{
    check_owner(&ctx.escrow, &ctx.owner)?;
    let escrow_lamports = ctx.escrow.lamports;
    ctx.owner.lamports = ctx.owner.lamports + escrow_lamports;
    ctx.escrow.lamports = 0;
    ctx.escrow.owner = SYSTEM_PROGRAM_ID;
    ctx.escrow.data = Vec::new();
    Ok(())
}

/// A closed escrow stays dead: whatever lamports are sent back to its address,
/// the account no longer loads as an escrow, so claiming or closing it again
/// fails with the loading error and changes nothing.
pub proof fn closed_escrow_never_loads(closed: AccountInfo, refund: u64, owner: AccountInfo)
    requires
        is_closed(closed),
    ensures
        escrow_load_error((AccountInfo { lamports: refund, ..closed })) is Some,
        owner_check_error((AccountInfo { lamports: refund, ..closed }), owner) is Some,
{
    assert(ID@[0] != SYSTEM_PROGRAM_ID@[0]);
}

} // verus!
