//! The first version of a token vault: balance, owner and an active flag, with
//! room reserved after them for fields a later version adds.
//! Account bytes: discriminator at 0..8, balance at 8..16, owner at 16..48,
//! active flag at 48, then 100 reserved zero bytes.
use crate::bytes::u64_le_bytes;
use crate::framework::{check_creation_signer, check_signer, check_uninitialized, in_use_error, is_unused, Account, Error, ErrorCode};
use crate::runtime::{AccountInfo, ProgramError, Pubkey};
use crate::text::push_bytes;
use vstd::prelude::*;

verus! {

/// The program's address, `FwY9MPTdEcpkSBsrCuY3pGYHywvNxTuevbw6F3L1XayD`.
pub const ID: Pubkey = [
    221, 252, 49, 254, 6, 170, 107, 21, 17, 25, 101, 103, 39, 26, 47, 228, 235, 119, 67, 133, 230,
    78, 178, 181, 117, 85, 82, 7, 76, 36, 106, 112,
];

/// The first eight bytes of a `Vault` account: the start of SHA-256 of
/// `"account:Vault"`.
pub const VAULT_DISCRIMINATOR: [u8; 8] = [211, 8, 232, 43, 2, 152, 117, 119];

/// The bytes reserved after a vault's fields.
pub const RESERVED: usize = 100;

/// The size of a vault account: discriminator, fields, reserved bytes.
pub const VAULT_SPACE: usize = 149;

#[derive(Clone, Copy, Debug, PartialEq, Eq)]
pub struct Vault {
    pub balance: u64,
    pub owner: Pubkey,
    pub is_active: bool,
}

#[derive(Clone, Copy, Debug, PartialEq, Eq)]
pub enum VaultError {
    VaultInactive,
    NotOwner,
    InsufficientBalance,
    Overflow,
    Underflow,
}

pub struct CreateVault {
    pub vault: AccountInfo,
    pub owner: AccountInfo,
}

pub struct VaultOperation {
    pub vault: Account<Vault>,
    pub owner: AccountInfo,
}

/// The byte a `bool` is stored as.
pub open spec fn bool_byte(b: bool) -> u8 {
    if b { 1u8 } else { 0u8 }
}

/// The bytes of a vault account holding `v`.
pub open spec fn vault_bytes(v: Vault) -> Seq<u8> {
    VAULT_DISCRIMINATOR@ + u64_le_bytes(v.balance) + v.owner@ + seq![bool_byte(v.is_active)] + Seq::new(
        RESERVED as nat,
        |i: int| 0u8,
    )
}

/// The bytes of a vault account holding `v`, as the program stores them.
pub fn encode_vault(v: &Vault) -> (out: Vec<u8>)
    ensures
        out@ == vault_bytes(*v),
{
    let mut out: Vec<u8> = Vec::new();
    push_bytes(&mut out, &VAULT_DISCRIMINATOR);
    let balance = crate::bytes::u64_to_le_bytes(v.balance);
    push_bytes(&mut out, &balance);
    push_bytes(&mut out, &v.owner);
    out.push(if v.is_active { 1u8 } else { 0u8 });
    let ghost prefix = out@;
    let mut i: usize = 0;
    while i < RESERVED
        invariant
            i <= RESERVED,
            out@ == prefix + Seq::new(i as nat, |j: int| 0u8),
        decreases RESERVED - i,
    {
        out.push(0u8);
        i = i + 1;
        assert(out@ =~= prefix + Seq::new(i as nat, |j: int| 0u8));
    }
    assert(out@ =~= vault_bytes(*v));
    out
}

/// The event a new vault emits.
#[derive(Clone, Copy, Debug, PartialEq, Eq)]
pub struct VaultCreated {
    pub vault: Pubkey,
    pub owner: Pubkey,
    pub balance: u64,
}

/// The event a deposit emits, with the balance after it.
#[derive(Clone, Copy, Debug, PartialEq, Eq)]
pub struct Deposited {
    pub vault: Pubkey,
    pub amount: u64,
    pub new_balance: u64,
}

/// The event a withdrawal emits, with the balance after it.
#[derive(Clone, Copy, Debug, PartialEq, Eq)]
pub struct Withdrawn {
    pub vault: Pubkey,
    pub amount: u64,
    pub new_balance: u64,
}

/// What `create_vault` returns: an active vault of the signing owner with the
/// initial balance, or the first failed check (the new account must sign).
pub open spec fn create_vault_result(ctx: CreateVault, initial_balance: u64) -> Result<(Vault, VaultCreated), Error<VaultError>> {
    if !ctx.owner.is_signer {
        Err(Error::Anchor(ErrorCode::AccountNotSigner))
    } else if !ctx.vault.is_signer {
        Err(Error::Runtime(ProgramError::MissingRequiredSignature))
    } else if !is_unused(ctx.vault) {
        Err(in_use_error())
    } else {
        Ok((Vault { balance: initial_balance, owner: ctx.owner.key, is_active: true }, VaultCreated { vault: ctx.vault.key, owner: ctx.owner.key, balance: initial_balance }))
    }
}

pub fn create_vault(ctx: &CreateVault, initial_balance: u64) -> (r: Result<(Vault, VaultCreated), Error<VaultError>>)
    ensures
        r == create_vault_result(*ctx, initial_balance),
{
    check_signer(&ctx.owner)?;
    check_creation_signer(&ctx.vault)?;
    check_uninitialized(&ctx.vault)?;
    Ok((Vault { balance: initial_balance, owner: ctx.owner.key, is_active: true }, VaultCreated { vault: ctx.vault.key, owner: ctx.owner.key, balance: initial_balance }))
}

/// The error an operation on `v` by `owner` fails with before its arithmetic:
/// the owner must sign, the vault must be active and be theirs.
pub open spec fn operation_error(v: Vault, owner: AccountInfo) -> Option<Error<VaultError>> {
    if !owner.is_signer {
        Some(Error::Anchor(ErrorCode::AccountNotSigner))
    } else if !v.is_active {
        Some(Error::Program(VaultError::VaultInactive))
    } else if v.owner@ != owner.key@ {
        Some(Error::Program(VaultError::NotOwner))
    } else {
        None
    }
}

/// Adds `amount` to the owner's active vault; an overflow is refused.
pub fn deposit(ctx: &mut VaultOperation, amount: u64) -> (r: Result<Deposited, Error<VaultError>>)
    ensures
        match operation_error(old(ctx).vault.data, old(ctx).owner) {
            Some(e) => r == Err::<Deposited, Error<VaultError>>(e) && *final(ctx) == *old(ctx),
            None => if old(ctx).vault.data.balance + amount > u64::MAX {
                r == Err::<Deposited, Error<VaultError>>(Error::Program(VaultError::Overflow)) && *final(ctx) == *old(ctx)
            } else {
                &&& r == Ok::<Deposited, Error<VaultError>>(Deposited { vault: old(ctx).vault.key, amount, new_balance: (old(ctx).vault.data.balance + amount) as u64 })
                &&& final(ctx).vault == (Account {
                    data: Vault { balance: (old(ctx).vault.data.balance + amount) as u64, ..old(ctx).vault.data },
                    ..old(ctx).vault
                })
                &&& final(ctx).owner == old(ctx).owner
            },
        },
{
    check_signer(&ctx.owner)?;
    if !ctx.vault.data.is_active {
        return Err(Error::Program(VaultError::VaultInactive));
    }
    if !crate::bytes::keys_eq(&ctx.vault.data.owner, &ctx.owner.key) {
        return Err(Error::Program(VaultError::NotOwner));
    }
    ctx.vault.data.balance = match ctx.vault.data.balance.checked_add(amount) {
        Some(b) => b,
        None => { return Err(Error::Program(VaultError::Overflow)); },
    };
    Ok(Deposited { vault: ctx.vault.key, amount, new_balance: ctx.vault.data.balance })
}

/// Takes `amount` from the owner's active vault; more than the balance is refused.
pub fn withdraw(ctx: &mut VaultOperation, amount: u64) -> (r: Result<Withdrawn, Error<VaultError>>)
    ensures
        match operation_error(old(ctx).vault.data, old(ctx).owner) {
            Some(e) => r == Err::<Withdrawn, Error<VaultError>>(e) && *final(ctx) == *old(ctx),
            None => if old(ctx).vault.data.balance < amount {
                r == Err::<Withdrawn, Error<VaultError>>(Error::Program(VaultError::InsufficientBalance))
                    && *final(ctx) == *old(ctx)
            } else {
                &&& r == Ok::<Withdrawn, Error<VaultError>>(Withdrawn { vault: old(ctx).vault.key, amount, new_balance: (old(ctx).vault.data.balance - amount) as u64 })
                &&& final(ctx).vault == (Account {
                    data: Vault { balance: (old(ctx).vault.data.balance - amount) as u64, ..old(ctx).vault.data },
                    ..old(ctx).vault
                })
                &&& final(ctx).owner == old(ctx).owner
            },
        },
{
    check_signer(&ctx.owner)?;
    if !ctx.vault.data.is_active {
        return Err(Error::Program(VaultError::VaultInactive));
    }
    if !crate::bytes::keys_eq(&ctx.vault.data.owner, &ctx.owner.key) {
        return Err(Error::Program(VaultError::NotOwner));
    }
    if ctx.vault.data.balance < amount {
        return Err(Error::Program(VaultError::InsufficientBalance));
    }
    ctx.vault.data.balance = match ctx.vault.data.balance.checked_sub(amount) {
        Some(b) => b,
        None => { return Err(Error::Program(VaultError::Underflow)); },
    };
    Ok(Withdrawn { vault: ctx.vault.key, amount, new_balance: ctx.vault.data.balance })
}

} // verus!
