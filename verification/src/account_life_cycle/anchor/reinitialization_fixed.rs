//! A configuration whose owner is set once: `init` refuses an existing account,
//! and the create-if-needed path keeps the first owner.
use crate::bytes::keys_eq;
use crate::framework::{
    check_seeds, check_signer, check_uninitialized, in_use_error, is_pda, is_unused, seed_list1,
    Account, Error, ErrorCode,
};
use crate::runtime::{AccountInfo, Pubkey, DEFAULT_PUBKEY};
use vstd::prelude::*;

verus! {

/// The program's address, `AFFAJU5tJe7tQnrDjjBLjdLfqtmgruC1PJzwCyUe35E5`.
pub const ID: Pubkey = [
    137, 95, 83, 40, 177, 89, 237, 109, 31, 44, 35, 247, 178, 77, 205, 76, 61, 230, 12, 92, 78,
    203, 192, 97, 23, 58, 162, 148, 196, 146, 92, 134,
];

/// The bytes of `"config"`.
pub const CONFIG_SEED: [u8; 6] = [99, 111, 110, 102, 105, 103];

/// The bytes of `"config_safe"`.
pub const CONFIG_SAFE_SEED: [u8; 11] = [99, 111, 110, 102, 105, 103, 95, 115, 97, 102, 101];

#[derive(Clone, Copy, Debug, PartialEq, Eq)]
pub struct Config {
    pub owner: Pubkey,
    pub value: u64,
    pub is_initialized: bool,
}

#[derive(Clone, Copy, Debug, PartialEq, Eq)]
pub enum ConfigError {
    NotOwner,
    AlreadyInitialized,
}

/// The configuration a freshly created account holds: all zero.
pub open spec fn zeroed_config() -> Config {
    Config { owner: DEFAULT_PUBKEY, value: 0, is_initialized: false }
}

pub struct Initialize {
    pub config: AccountInfo,
    pub payer: AccountInfo,
}

/// Accounts of `initialize_safe`: the configuration, `None` while its account
/// does not exist yet.
pub struct InitializeSafe {
    pub config: Account<Option<Config>>,
    pub payer: AccountInfo,
}

pub struct UpdateValue {
    pub config: Account<Config>,
    pub owner: AccountInfo,
}

/// What `initialize` returns: the payer's configuration holding `value`, or the
/// first failed check; an existing account is refused.
pub open spec fn initialize_result(ctx: Initialize, value: u64) -> Result<Config, Error<ConfigError>> {
    if !ctx.payer.is_signer {
        Err(Error::Anchor(ErrorCode::AccountNotSigner))
    } else if !is_pda(ctx.config.key@, seq![CONFIG_SEED@], ID@) {
        Err(Error::Anchor(ErrorCode::ConstraintSeeds))
    } else if !is_unused(ctx.config) {
        Err(in_use_error())
    } else {
        Ok(Config { owner: ctx.payer.key, value, is_initialized: true })
    }
}

pub fn initialize(ctx: &Initialize, value: u64) -> (r: Result<Config, Error<ConfigError>>)
    ensures
        r == initialize_result(*ctx, value),
{
    check_signer(&ctx.payer)?;
    check_seeds(&ctx.config.key, &seed_list1(&CONFIG_SEED), &ID)?;
    check_uninitialized(&ctx.config)?;
    Ok(Config { owner: ctx.payer.key, value, is_initialized: true })
}

/// The configuration `initialize_safe` leaves: a set-up one keeps its owner and
/// takes the new value when the payer is that owner; a fresh one becomes the
/// payer's with the value.
pub open spec fn initialize_safe_result(current: Config, payer: Pubkey, value: u64) -> Result<Config, ConfigError> {
    if current.is_initialized {
        if current.owner@ != payer@ {
            Err(ConfigError::AlreadyInitialized)
        } else {
            Ok(Config { value, ..current })
        }
    } else {
        Ok(Config { owner: payer, value, is_initialized: true })
    }
}

/// Creates the configuration if needed and sets its value, without ever giving
/// it a new owner.
pub fn initialize_safe(ctx: &mut InitializeSafe, value: u64) -> (r: Result<(), Error<ConfigError>>)
    ensures
        !old(ctx).payer.is_signer ==> r == Err::<(), Error<ConfigError>>(Error::Anchor(ErrorCode::AccountNotSigner)),
        old(ctx).payer.is_signer && !is_pda(old(ctx).config.key@, seq![CONFIG_SAFE_SEED@], ID@)
            ==> r == Err::<(), Error<ConfigError>>(Error::Anchor(ErrorCode::ConstraintSeeds)),
        r is Err ==> *final(ctx) == *old(ctx),
        old(ctx).payer.is_signer && is_pda(old(ctx).config.key@, seq![CONFIG_SAFE_SEED@], ID@) ==> {
            let current = match old(ctx).config.data { Some(c) => c, None => zeroed_config() };
            &&& final(ctx).config.key == old(ctx).config.key
            &&& final(ctx).config.lamports == old(ctx).config.lamports
            &&& final(ctx).payer == old(ctx).payer
            &&& match initialize_safe_result(current, old(ctx).payer.key, value) {
                Ok(c) => r is Ok && final(ctx).config.data == Some(c),
                Err(e) => r == Err::<(), Error<ConfigError>>(Error::Program(e)),
            }
        },
{
    check_signer(&ctx.payer)?;
    check_seeds(&ctx.config.key, &seed_list1(&CONFIG_SAFE_SEED), &ID)?;
    let mut config = match ctx.config.data {
        Some(c) => c,
        None => Config { owner: DEFAULT_PUBKEY, value: 0, is_initialized: false },
    };
    if config.is_initialized {
        if !keys_eq(&config.owner, &ctx.payer.key) {
            return Err(Error::Program(ConfigError::AlreadyInitialized));
        }
        config.value = value;
    } else {
        config.owner = ctx.payer.key;
        config.value = value;
        config.is_initialized = true;
    }
    ctx.config.data = Some(config);
    Ok(())
}

/// Sets the value; only the signing owner may.
pub fn update_value(ctx: &mut UpdateValue, new_value: u64) -> (r: Result<(), Error<ConfigError>>)
    ensures
        !old(ctx).owner.is_signer ==> r == Err::<(), Error<ConfigError>>(Error::Anchor(ErrorCode::AccountNotSigner)),
        old(ctx).owner.is_signer && old(ctx).config.data.owner@ != old(ctx).owner.key@
            ==> r == Err::<(), Error<ConfigError>>(Error::Program(ConfigError::NotOwner)),
        r is Err ==> *final(ctx) == *old(ctx),
        old(ctx).owner.is_signer && old(ctx).config.data.owner@ == old(ctx).owner.key@ ==> {
            &&& r is Ok
            &&& final(ctx).config.data == Config { value: new_value, ..old(ctx).config.data }
            &&& final(ctx).config.key == old(ctx).config.key
            &&& final(ctx).config.lamports == old(ctx).config.lamports
            &&& final(ctx).owner == old(ctx).owner
        },
{
    check_signer(&ctx.owner)?;
    if !keys_eq(&ctx.config.data.owner, &ctx.owner.key) {
        return Err(Error::Program(ConfigError::NotOwner));
    }
    ctx.config.data.value = new_value;
    Ok(())
}

/// Once set up, a configuration keeps its owner: `initialize_safe` either
/// refuses or leaves the owner as it was, whoever pays.
pub proof fn initialized_owner_is_kept(current: Config, payer: Pubkey, value: u64)
    requires
        current.is_initialized,
    ensures
        match initialize_safe_result(current, payer, value) {
            Ok(c) => c.owner == current.owner && c.is_initialized,
            Err(e) => e == ConfigError::AlreadyInitialized && payer@ != current.owner@,
        },
{
}

} // verus!
