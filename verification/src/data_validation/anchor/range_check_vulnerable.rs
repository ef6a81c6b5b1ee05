//! Characters whose level is taken as given, any `u8`, so their health can go
//! far past what the game intends.
use crate::framework::{
    check_seeds, check_signer, check_uninitialized, in_use_error, is_pda, is_unused, seed_list2, Account, Error,
    ErrorCode, NoProgramError,
};
use crate::runtime::{AccountInfo, Pubkey};
use vstd::prelude::*;

verus! {

/// The program's address, `686qj3aUjybLfyE3dHKzksYPj6xeqY85cfJtQxvqBTSc`.
pub const ID: Pubkey = [
    76, 28, 26, 140, 20, 86, 129, 214, 214, 176, 21, 170, 54, 222, 100, 181, 222, 61, 242, 223, 117,
    252, 236, 219, 41, 249, 189, 217, 51, 234, 148, 101,
];

/// The bytes of `"char"`.
pub const CHAR_SEED: [u8; 4] = [99, 104, 97, 114];

#[derive(Clone, Copy, Debug, PartialEq, Eq)]
pub struct Character {
    pub level: u8,
    pub health: u64,
}

/// The seeds of a player's character address: `"char"` and the player's key.
pub open spec fn character_seeds(player: Seq<u8>) -> Seq<Seq<u8>> {
    seq![CHAR_SEED@, player]
}

/// The event a new character emits.
#[derive(Clone, Copy, Debug, PartialEq, Eq)]
pub struct CharacterCreated {
    pub character: Pubkey,
    pub owner: Pubkey,
}

/// The event a level change emits: the character's new level and health.
#[derive(Clone, Copy, Debug, PartialEq, Eq)]
pub struct LevelSet {
    pub character: Pubkey,
    pub level: u8,
    pub health: u64,
}

pub struct Initialize {
    pub character: AccountInfo,
    pub signer: AccountInfo,
}

pub struct SetLevel {
    pub character: Account<Character>,
    pub signer: AccountInfo,
}

/// What `initialize` returns: the signer's new character at its derived
/// address, at level 0 with no health, or the first failed check.
pub open spec fn initialize_result(ctx: Initialize) -> Result<(Character, CharacterCreated), Error<NoProgramError>> {
    if !ctx.signer.is_signer {
        Err(Error::Anchor(ErrorCode::AccountNotSigner))
    } else if !is_pda(ctx.character.key@, character_seeds(ctx.signer.key@), ID@) {
        Err(Error::Anchor(ErrorCode::ConstraintSeeds))
    } else if !is_unused(ctx.character) {
        Err(in_use_error())
    } else {
        Ok((Character { level: 0, health: 0 }, CharacterCreated { character: ctx.character.key, owner: ctx.signer.key }))
    }
}

pub fn initialize(ctx: &Initialize) -> (r: Result<(Character, CharacterCreated), Error<NoProgramError>>)
    ensures
        r == initialize_result(*ctx),
{
    check_signer(&ctx.signer)?;
    check_seeds(&ctx.character.key, &seed_list2(&CHAR_SEED, &ctx.signer.key), &ID)?;
    check_uninitialized(&ctx.character)?;
    Ok((Character { level: 0, health: 0 }, CharacterCreated { character: ctx.character.key, owner: ctx.signer.key }))
}

/// The error `set_level` fails with, if any; the level itself is never refused.
pub open spec fn set_level_error(ctx: SetLevel) -> Option<Error<NoProgramError>> {
    if !ctx.signer.is_signer {
        Some(Error::Anchor(ErrorCode::AccountNotSigner))
    } else if !is_pda(ctx.character.key@, character_seeds(ctx.signer.key@), ID@) {
        Some(Error::Anchor(ErrorCode::ConstraintSeeds))
    } else {
        None
    }
}

/// Sets the signer's character to `level`, with `level * 100` health.
pub fn set_level(ctx: &mut SetLevel, level: u8) -> (r: Result<LevelSet, Error<NoProgramError>>)
    ensures
        match set_level_error(*old(ctx)) {
            Some(e) => r == Err::<LevelSet, Error<NoProgramError>>(e) && *final(ctx) == *old(ctx),
            None => {
                &&& r == Ok::<LevelSet, Error<NoProgramError>>(LevelSet { character: old(ctx).character.key, level, health: (level * 100) as u64 })
                &&& final(ctx).character == (Account {
                    data: Character { level, health: (level * 100) as u64 },
                    ..old(ctx).character
                })
                &&& final(ctx).signer == old(ctx).signer
            },
        },
{
    check_signer(&ctx.signer)?;
    check_seeds(&ctx.character.key, &seed_list2(&CHAR_SEED, &ctx.signer.key), &ID)?;
    ctx.character.data.level = level;
    ctx.character.data.health = (level as u64) * 100;
    Ok(LevelSet { character: ctx.character.key, level, health: ctx.character.data.health })
}

} // verus!
