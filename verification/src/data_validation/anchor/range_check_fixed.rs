//! Characters whose level is checked to lie in 1..=100 before their health is
//! derived from it.
use crate::framework::{
    check_seeds, check_signer, check_uninitialized, in_use_error, is_pda, is_unused, seed_list2, Account, Error,
    ErrorCode,
};
use crate::runtime::{AccountInfo, Pubkey};
use vstd::prelude::*;

verus! {

/// The program's address, `EfDXMep5sqCeRz2pm1q6ZBjKJjKfM3TVj1xppZALnVzY`.
pub const ID: Pubkey = [
    202, 242, 41, 56, 136, 145, 139, 68, 210, 13, 212, 125, 33, 52, 73, 153, 88, 34, 97, 40, 159,
    186, 63, 18, 78, 199, 55, 48, 234, 224, 27, 81,
];

/// The bytes of `"char"`.
pub const CHAR_SEED: [u8; 4] = [99, 104, 97, 114];

/// The highest level a character may have.
pub const MAX_LEVEL: u8 = 100;

/// The health each level gives.
pub const HEALTH_PER_LEVEL: u64 = 100;

#[derive(Clone, Copy, Debug, PartialEq, Eq)]
pub struct Character {
    pub level: u8,
    pub health: u64,
}

#[derive(Clone, Copy, Debug, PartialEq, Eq)]
pub enum GameError {
    InvalidLevel,
}

/// The seeds of a player's character address: `"char"` and the player's key.
pub open spec fn character_seeds(player: Seq<u8>) -> Seq<Seq<u8>> {
    seq![CHAR_SEED@, player]
}

/// The event a new character emits.
#[derive(Clone, Copy, Debug, PartialEq, Eq)]
pub struct CharacterCreated {
    pub character: Pubkey,
    pub owner: Pubkey,
}

/// The event a level change emits: the character's new level and health.
#[derive(Clone, Copy, Debug, PartialEq, Eq)]
pub struct LevelSet {
    pub character: Pubkey,
    pub level: u8,
    pub health: u64,
}

pub struct Initialize {
    pub character: AccountInfo,
    pub signer: AccountInfo,
}

pub struct SetLevel {
    pub character: Account<Character>,
    pub signer: AccountInfo,
}

/// What `initialize` returns: the signer's new character at its derived
/// address, at level 0 with no health, or the first failed check.
pub open spec fn initialize_result(ctx: Initialize) -> Result<(Character, CharacterCreated), Error<GameError>> {
    if !ctx.signer.is_signer {
        Err(Error::Anchor(ErrorCode::AccountNotSigner))
    } else if !is_pda(ctx.character.key@, character_seeds(ctx.signer.key@), ID@) {
        Err(Error::Anchor(ErrorCode::ConstraintSeeds))
    } else if !is_unused(ctx.character) {
        Err(in_use_error())
    } else {
        Ok((Character { level: 0, health: 0 }, CharacterCreated { character: ctx.character.key, owner: ctx.signer.key }))
    }
}

pub fn initialize(ctx: &Initialize) -> (r: Result<(Character, CharacterCreated), Error<GameError>>)
    ensures
        r == initialize_result(*ctx),
{
    check_signer(&ctx.signer)?;
    check_seeds(&ctx.character.key, &seed_list2(&CHAR_SEED, &ctx.signer.key), &ID)?;
    check_uninitialized(&ctx.character)?;
    Ok((Character { level: 0, health: 0 }, CharacterCreated { character: ctx.character.key, owner: ctx.signer.key }))
}

/// Whether `level` is one a character may have.
pub open spec fn valid_level(level: u8) -> bool {
    1 <= level <= MAX_LEVEL
}

/// The error `set_level` fails with, if any.
pub open spec fn set_level_error(ctx: SetLevel, level: u8) -> Option<Error<GameError>> {
    if !ctx.signer.is_signer {
        Some(Error::Anchor(ErrorCode::AccountNotSigner))
    } else if !is_pda(ctx.character.key@, character_seeds(ctx.signer.key@), ID@) {
        Some(Error::Anchor(ErrorCode::ConstraintSeeds))
    } else if !valid_level(level) {
        Some(Error::Program(GameError::InvalidLevel))
    } else {
        None
    }
}

/// Sets the signer's character to `level`, with `level * 100` health.
pub fn set_level(ctx: &mut SetLevel, level: u8) -> (r: Result<LevelSet, Error<GameError>>)
    ensures
        match set_level_error(*old(ctx), level) {
            Some(e) => r == Err::<LevelSet, Error<GameError>>(e) && *final(ctx) == *old(ctx),
            None => {
                &&& r == Ok::<LevelSet, Error<GameError>>(LevelSet { character: old(ctx).character.key, level, health: (level * HEALTH_PER_LEVEL) as u64 })
                &&& final(ctx).character == (Account {
                    data: Character { level, health: (level * HEALTH_PER_LEVEL) as u64 },
                    ..old(ctx).character
                })
                &&& final(ctx).signer == old(ctx).signer
            },
        },
        r is Ok ==> 1 <= final(ctx).character.data.level <= MAX_LEVEL
            && final(ctx).character.data.health <= MAX_LEVEL * HEALTH_PER_LEVEL,
{
    check_signer(&ctx.signer)?;
    check_seeds(&ctx.character.key, &seed_list2(&CHAR_SEED, &ctx.signer.key), &ID)?;
    if !(level >= 1 && level <= MAX_LEVEL) {
        return Err(Error::Program(GameError::InvalidLevel));
    }
    ctx.character.data.level = level;
    ctx.character.data.health = (level as u64) * HEALTH_PER_LEVEL;
    Ok(LevelSet { character: ctx.character.key, level, health: ctx.character.data.health })
}

} // verus!
