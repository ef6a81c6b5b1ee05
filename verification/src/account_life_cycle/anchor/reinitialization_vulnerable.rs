//! A configuration created if needed by an instruction that writes the caller in
//! as owner every time, so anyone can take over an existing one.
use crate::bytes::keys_eq;
use crate::framework::{check_seeds, check_signer, is_pda, seed_list1, Account, Error, ErrorCode};
use crate::runtime::{AccountInfo, Pubkey};
use vstd::prelude::*;

verus! {

/// The program's address, `AWZ7VNRtQjFkfZnrLwG46znQ14yC8EefoydvzPu3Tkoq`.
pub const ID: Pubkey = [
    141, 75, 85, 182, 204, 170, 21, 145, 223, 162, 182, 79, 104, 118, 165, 191, 60, 229, 36, 253,
    225, 15, 91, 222, 133, 41, 88, 111, 124, 96, 243, 88,
];

/// The bytes of `"config"`.
pub const CONFIG_SEED: [u8; 6] = [99, 111, 110, 102, 105, 103];

#[derive(Clone, Copy, Debug, PartialEq, Eq)]
pub struct Config {
    pub owner: Pubkey,
    pub value: u64,
}

#[derive(Clone, Copy, Debug, PartialEq, Eq)]
pub enum ConfigError {
    NotOwner,
}

/// Accounts of `initialize_or_update`: the configuration, `None` while its
/// account does not exist yet.
pub struct InitializeOrUpdate {
    pub config: Account<Option<Config>>,
    pub payer: AccountInfo,
}

pub struct UpdateValue {
    pub config: Account<Config>,
    pub owner: AccountInfo,
}

pub struct Withdraw {
    pub config: Account<Config>,
    pub owner: AccountInfo,
}

/// Creates the configuration if needed and makes the signing payer its owner
/// with the given value, whether or not it had an owner before.
pub fn initialize_or_update(ctx: &mut InitializeOrUpdate, value: u64) -> (r: Result<(), Error<ConfigError>>)
    ensures
        !old(ctx).payer.is_signer ==> r == Err::<(), Error<ConfigError>>(Error::Anchor(ErrorCode::AccountNotSigner)),
        old(ctx).payer.is_signer && !is_pda(old(ctx).config.key@, seq![CONFIG_SEED@], ID@)
            ==> r == Err::<(), Error<ConfigError>>(Error::Anchor(ErrorCode::ConstraintSeeds)),
        r is Err ==> *final(ctx) == *old(ctx),
        old(ctx).payer.is_signer && is_pda(old(ctx).config.key@, seq![CONFIG_SEED@], ID@) ==> {
            &&& r is Ok
            &&& final(ctx).config.data == Some(Config { owner: old(ctx).payer.key, value })
            &&& final(ctx).config.key == old(ctx).config.key
            &&& final(ctx).config.lamports == old(ctx).config.lamports
            &&& final(ctx).payer == old(ctx).payer
        },
{
    check_signer(&ctx.payer)?;
    check_seeds(&ctx.config.key, &seed_list1(&CONFIG_SEED), &ID)?;
    ctx.config.data = Some(Config { owner: ctx.payer.key, value });
    Ok(())
}

/// Sets the value; only the signing owner may.
pub fn update_value(ctx: &mut UpdateValue, new_value: u64) -> (r: Result<(), Error<ConfigError>>)
    ensures
        !old(ctx).owner.is_signer ==> r == Err::<(), Error<ConfigError>>(Error::Anchor(ErrorCode::AccountNotSigner)),
        old(ctx).owner.is_signer && old(ctx).config.data.owner@ != old(ctx).owner.key@
            ==> r == Err::<(), Error<ConfigError>>(Error::Program(ConfigError::NotOwner)),
        r is Err ==> *final(ctx) == *old(ctx),
        old(ctx).owner.is_signer && old(ctx).config.data.owner@ == old(ctx).owner.key@ ==> {
            &&& r is Ok
            &&& final(ctx).config.data == Config { value: new_value, ..old(ctx).config.data }
            &&& final(ctx).config.key == old(ctx).config.key
            &&& final(ctx).config.lamports == old(ctx).config.lamports
            &&& final(ctx).owner == old(ctx).owner
        },
{
    check_signer(&ctx.owner)?;
    if !keys_eq(&ctx.config.data.owner, &ctx.owner.key) {
        return Err(Error::Program(ConfigError::NotOwner));
    }
    ctx.config.data.value = new_value;
    Ok(())
}

/// The lamports `withdraw` takes: all above `min_rent`, the rent-exempt minimum
/// for the configuration's size.
pub open spec fn withdrawable(lamports: u64, min_rent: u64) -> u64 {
    if lamports > min_rent { (lamports - min_rent) as u64 } else { 0 }
}

/// Pays the signing owner every lamport of the configuration above `min_rent`
/// (what `Rent::minimum_balance` gives for the account's size).
pub fn withdraw(ctx: &mut Withdraw, min_rent: u64) -> (r: Result<(), Error<ConfigError>>)
    requires
        old(ctx).owner.is_signer && old(ctx).config.data.owner@ == old(ctx).owner.key@
            ==> old(ctx).owner.lamports + withdrawable(old(ctx).config.lamports, min_rent) <= u64::MAX,
    ensures
        !old(ctx).owner.is_signer ==> r == Err::<(), Error<ConfigError>>(Error::Anchor(ErrorCode::AccountNotSigner)),
        old(ctx).owner.is_signer && old(ctx).config.data.owner@ != old(ctx).owner.key@
            ==> r == Err::<(), Error<ConfigError>>(Error::Program(ConfigError::NotOwner)),
        r is Err ==> *final(ctx) == *old(ctx),
        old(ctx).owner.is_signer && old(ctx).config.data.owner@ == old(ctx).owner.key@ ==> {
            let w = withdrawable(old(ctx).config.lamports, min_rent);
            &&& r is Ok
            &&& final(ctx).config.lamports == old(ctx).config.lamports - w
            &&& final(ctx).config.data == old(ctx).config.data
            &&& final(ctx).config.key == old(ctx).config.key
            &&& final(ctx).owner == AccountInfo { lamports: (old(ctx).owner.lamports + w) as u64, ..old(ctx).owner }
        },
{
    check_signer(&ctx.owner)?;
    if !keys_eq(&ctx.config.data.owner, &ctx.owner.key) {
        return Err(Error::Program(ConfigError::NotOwner));
    }
    let withdrawable = ctx.config.lamports.saturating_sub(min_rent);
    ctx.config.lamports = ctx.config.lamports - withdrawable;
    ctx.owner.lamports = ctx.owner.lamports + withdrawable;
    Ok(())
}

} // verus!
