//! A claimable reward that only asks whether the transaction holds an Ed25519
//! verification at all, not whose key or which message it checked.
use crate::framework::{check_signer, check_uninitialized, in_use_error, is_unused, Account, Error, ErrorCode};
use crate::outside::{
    load_current_index_checked, load_instruction_at_checked, sysvar_instruction,
    INSTRUCTIONS_SYSVAR_ID,
};
use crate::runtime::{AccountInfo, ProgramError, Pubkey};
use vstd::prelude::*;

verus! {

/// The program's address, `9yTg5P8YN5D6wJ5C3g5ukwBXaKBq8Q3GzfYs5Q3pZaC1`.
pub const ID: Pubkey = [
    133, 84, 46, 72, 0, 143, 177, 5, 191, 100, 29, 229, 92, 152, 73, 55, 48, 3, 186, 145, 82, 76,
    65, 103, 35, 217, 167, 1, 211, 226, 44, 18,
];

/// The Ed25519 signature-verification program, `Ed25519SigVerify111111111111111111111111111`.
pub const ED25519_PROGRAM_ID: Pubkey = [
    3, 125, 70, 214, 124, 147, 251, 190, 18, 249, 66, 143, 131, 141, 64, 255, 5, 112, 116, 73, 39,
    244, 138, 100, 252, 202, 112, 68, 128, 0, 0, 0,
];

/// A reward: whose signature should release it, how much, and whether it went.
#[derive(Clone, Copy, Debug, PartialEq, Eq)]
pub struct Reward {
    pub authority: Pubkey,
    pub amount: u64,
    pub claimed: bool,
}

#[derive(Clone, Copy, Debug, PartialEq, Eq)]
pub enum IntrospectionError {
    MissingSignature,
    AlreadyClaimed,
}

/// The event a new reward emits: which reward, whose signature releases it, how much.
#[derive(Clone, Copy, Debug, PartialEq, Eq)]
pub struct RewardInitialized {
    pub reward: Pubkey,
    pub authority: Pubkey,
    pub amount: u64,
}

/// The event a successful claim emits: which reward, who claimed it, how much.
#[derive(Clone, Copy, Debug, PartialEq, Eq)]
pub struct RewardClaimed {
    pub reward: Pubkey,
    pub claimer: Pubkey,
    pub amount: u64,
}

pub struct Initialize {
    pub reward: AccountInfo,
    pub authority: AccountInfo,
}

pub struct ClaimReward {
    pub reward: Account<Reward>,
    pub claimer: AccountInfo,
    pub instruction_sysvar: AccountInfo,
}

/// What `initialize` returns: an unclaimed reward of `reward_amount` for the
/// signing authority, or the first failed check.
pub open spec fn initialize_result(ctx: Initialize, reward_amount: u64) -> Result<(Reward, RewardInitialized), Error<IntrospectionError>> {
    if !ctx.authority.is_signer {
        Err(Error::Anchor(ErrorCode::AccountNotSigner))
    } else if !is_unused(ctx.reward) {
        Err(in_use_error())
    } else {
        Ok((Reward { authority: ctx.authority.key, amount: reward_amount, claimed: false }, RewardInitialized { reward: ctx.reward.key, authority: ctx.authority.key, amount: reward_amount }))
    }
}

pub fn initialize(ctx: &Initialize, reward_amount: u64) -> (r: Result<(Reward, RewardInitialized), Error<IntrospectionError>>)
    ensures
        r == initialize_result(*ctx, reward_amount),
{
    check_signer(&ctx.authority)?;
    check_uninitialized(&ctx.reward)?;
    Ok((Reward { authority: ctx.authority.key, amount: reward_amount, claimed: false }, RewardInitialized { reward: ctx.reward.key, authority: ctx.authority.key, amount: reward_amount }))
}

/// Scanning the transaction's instructions from `i` up to (not including) `n`:
/// whether an Ed25519 verification comes before an instruction that cannot be
/// loaded, or that loading error.
pub open spec fn find_ed25519(sysvar: Seq<u8>, i: int, n: int) -> Result<bool, ProgramError>
    decreases n - i,
{
    if i >= n || i < 0 {
        Ok(false)
    } else {
        match sysvar_instruction(i as usize, sysvar) {
            Err(e) => Err(e),
            Ok(ix) => if ix.0 == ED25519_PROGRAM_ID@ { Ok(true) } else { find_ed25519(sysvar, i + 1, n) },
        }
    }
}

/// What `claim_reward` does once the accounts pass: a loading error, a missing
/// verification instruction, an earlier claim, or `Ok`.
pub open spec fn claim_result(reward: Account<Reward>, sysvar: Seq<u8>) -> Result<(), Error<IntrospectionError>> {
    let current = crate::bytes::le_u16_at(sysvar, sysvar.len() - 2);
    match find_ed25519(sysvar, 0, current as int) {
        Err(e) => Err(Error::Runtime(e)),
        Ok(false) => Err(Error::Program(IntrospectionError::MissingSignature)),
        Ok(true) => if reward.data.claimed {
            Err(Error::Program(IntrospectionError::AlreadyClaimed))
        } else {
            Ok(())
        },
    }
}

/// Marks the reward claimed when any Ed25519 verification, of any key over any
/// message, comes before this instruction.
pub fn claim_reward(ctx: &mut ClaimReward) -> (r: Result<RewardClaimed, Error<IntrospectionError>>)
    requires
        old(ctx).claimer.is_signer && old(ctx).instruction_sysvar.key@ == INSTRUCTIONS_SYSVAR_ID@
            ==> old(ctx).instruction_sysvar.data@.len() >= 2,
    ensures
        !old(ctx).claimer.is_signer ==> r == Err::<RewardClaimed, Error<IntrospectionError>>(Error::Anchor(ErrorCode::AccountNotSigner)),
        old(ctx).claimer.is_signer && old(ctx).instruction_sysvar.key@ != INSTRUCTIONS_SYSVAR_ID@
            ==> r == Err::<RewardClaimed, Error<IntrospectionError>>(Error::Anchor(ErrorCode::ConstraintAddress)),
        old(ctx).claimer.is_signer && old(ctx).instruction_sysvar.key@ == INSTRUCTIONS_SYSVAR_ID@ ==> match claim_result(old(ctx).reward, old(ctx).instruction_sysvar.data@) {
            Err(e) => r == Err::<RewardClaimed, Error<IntrospectionError>>(e),
            Ok(_) => r == Ok::<RewardClaimed, Error<IntrospectionError>>(RewardClaimed {
                reward: old(ctx).reward.key, claimer: old(ctx).claimer.key, amount: old(ctx).reward.data.amount }),
        },
        r is Err ==> *final(ctx) == *old(ctx),
        r is Ok ==> {
            &&& final(ctx).reward.data == Reward { claimed: true, ..old(ctx).reward.data }
            &&& final(ctx).reward.key == old(ctx).reward.key
            &&& final(ctx).reward.lamports == old(ctx).reward.lamports
            &&& final(ctx).claimer == old(ctx).claimer
            &&& final(ctx).instruction_sysvar == old(ctx).instruction_sysvar
        },
{
    check_signer(&ctx.claimer)?;
    if !crate::bytes::keys_eq(&ctx.instruction_sysvar.key, &INSTRUCTIONS_SYSVAR_ID) {
        return Err(Error::Anchor(ErrorCode::ConstraintAddress));
    }
    let current_index = match load_current_index_checked(&ctx.instruction_sysvar) {
        Ok(i) => i,
        Err(e) => { return Err(Error::Runtime(e)); },
    };
    let ghost sysvar = ctx.instruction_sysvar.data@;
    let mut found_ed25519 = false;
    let mut i: u16 = 0;
    while i < current_index
        invariant_except_break
            i <= current_index,
            !found_ed25519,
            find_ed25519(sysvar, 0, current_index as int) == find_ed25519(sysvar, i as int, current_index as int),
        invariant
            *ctx == *old(ctx),
            ctx.claimer.is_signer,
            ctx.instruction_sysvar.key@ == INSTRUCTIONS_SYSVAR_ID@,
            sysvar == ctx.instruction_sysvar.data@,
            current_index == crate::bytes::le_u16_at(sysvar, sysvar.len() - 2),
        ensures
            find_ed25519(sysvar, 0, current_index as int) == Ok::<bool, ProgramError>(found_ed25519),
        decreases current_index - i,
    {
        let ix = match load_instruction_at_checked(i as usize, &ctx.instruction_sysvar) {
            Ok(ix) => ix,
            Err(e) => { return Err(Error::Runtime(e)); },
        };
        if crate::bytes::keys_eq(&ix.program_id, &ED25519_PROGRAM_ID) {
            found_ed25519 = true;
            break;
        }
        i = i + 1;
    }
    if !found_ed25519 {
        return Err(Error::Program(IntrospectionError::MissingSignature));
    }
    if ctx.reward.data.claimed {
        return Err(Error::Program(IntrospectionError::AlreadyClaimed));
    }
    ctx.reward.data.claimed = true;
    Ok(RewardClaimed { reward: ctx.reward.key, claimer: ctx.claimer.key, amount: ctx.reward.data.amount })
}

} // verus!
