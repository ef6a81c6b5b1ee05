//! A claimable reward that demands, earlier in the same transaction, an Ed25519
//! verification of the claim message by the reward's authority.
use crate::framework::{check_signer, check_uninitialized, in_use_error, is_unused, Account, Error, ErrorCode};
use crate::outside::{
    base58_text, current_index_result, load_current_index_checked, load_instruction_at_checked,
    pubkey_base58, sysvar_instruction, INSTRUCTIONS_SYSVAR_ID,
};
use crate::runtime::{AccountInfo, ProgramError, Pubkey};
use crate::text::{bytes_equal, decimal, push_bytes, push_decimal, suffix_equals};
use vstd::prelude::*;

verus! {

/// The program's address, `Bv7g5P8YN5D6wJ5C3g5ukwBXaKBq8Q3GzfYs5Q3pZaB2`.
pub const ID: Pubkey = [
    162, 48, 50, 185, 70, 11, 211, 228, 235, 85, 239, 237, 138, 252, 220, 4, 73, 160, 138, 26, 49,
    72, 34, 172, 13, 137, 131, 1, 211, 226, 43, 217,
];

/// The Ed25519 signature-verification program, `Ed25519SigVerify111111111111111111111111111`.
pub const ED25519_PROGRAM_ID: Pubkey = [
    3, 125, 70, 214, 124, 147, 251, 190, 18, 249, 66, 143, 131, 141, 64, 255, 5, 112, 116, 73, 39,
    244, 138, 100, 252, 202, 112, 68, 128, 0, 0, 0,
];

/// The bytes of `"CLAIM:"`.
pub const CLAIM_PREFIX: [u8; 6] = [67, 76, 65, 73, 77, 58];

/// Where the public key starts in the verification instruction's data.
pub const PUBKEY_OFFSET: usize = 16;

/// Where the signed message starts in the verification instruction's data.
pub const MESSAGE_OFFSET: usize = 112;

/// A reward: whose signature releases it, how much, whether it went, and a
/// counter that each claim moves on.
#[derive(Clone, Copy, Debug, PartialEq, Eq)]
pub struct Reward {
    pub authority: Pubkey,
    pub amount: u64,
    pub claimed: bool,
    pub nonce: u64,
}

#[derive(Clone, Copy, Debug, PartialEq, Eq)]
pub enum IntrospectionError {
    InvalidSignature,
    InvalidMessage,
    AlreadyClaimed,
}

/// The event a successful claim emits: which reward, who claimed it, how much.
#[derive(Clone, Copy, Debug, PartialEq, Eq)]
pub struct RewardClaimed {
    pub reward: Pubkey,
    pub claimer: Pubkey,
    pub amount: u64,
}

/// The event a new reward emits: which reward, whose signature releases it, how much.
#[derive(Clone, Copy, Debug, PartialEq, Eq)]
pub struct RewardInitialized {
    pub reward: Pubkey,
    pub authority: Pubkey,
    pub amount: u64,
}

pub struct Initialize {
    pub reward: AccountInfo,
    pub authority: AccountInfo,
}

pub struct ClaimReward {
    pub reward: Account<Reward>,
    pub claimer: AccountInfo,
    pub instruction_sysvar: AccountInfo,
}

/// What `initialize` returns: an unclaimed reward of `reward_amount` for the
/// signing authority, or the first failed check.
pub open spec fn initialize_result(ctx: Initialize, reward_amount: u64) -> Result<(Reward, RewardInitialized), Error<IntrospectionError>> {
    if !ctx.authority.is_signer {
        Err(Error::Anchor(ErrorCode::AccountNotSigner))
    } else if !is_unused(ctx.reward) {
        Err(in_use_error())
    } else {
        Ok((Reward { authority: ctx.authority.key, amount: reward_amount, claimed: false, nonce: 0 }, RewardInitialized { reward: ctx.reward.key, authority: ctx.authority.key, amount: reward_amount }))
    }
}

pub fn initialize(ctx: &Initialize, reward_amount: u64) -> (r: Result<(Reward, RewardInitialized), Error<IntrospectionError>>)
    ensures
        r == initialize_result(*ctx, reward_amount),
{
    check_signer(&ctx.authority)?;
    check_uninitialized(&ctx.reward)?;
    Ok((Reward { authority: ctx.authority.key, amount: reward_amount, claimed: false, nonce: 0 }, RewardInitialized { reward: ctx.reward.key, authority: ctx.authority.key, amount: reward_amount }))
}

/// The message a claim must carry: `"CLAIM:<reward address in base58>:<nonce>"`.
pub open spec fn claim_message(reward: Seq<u8>, nonce: u64) -> Seq<u8> {
    CLAIM_PREFIX@ + base58_text(reward) + seq![58u8] + decimal(nonce as nat)
}

fn build_claim_message(reward: &Pubkey, nonce: u64) -> (m: Vec<u8>)
    ensures
        m@ == claim_message(reward@, nonce),
{
    let mut m: Vec<u8> = Vec::new();
    push_bytes(&mut m, &CLAIM_PREFIX);
    let key_text = pubkey_base58(reward);
    push_bytes(&mut m, &key_text);
    m.push(58u8);
    push_decimal(&mut m, nonce);
    assert(m@ =~= claim_message(reward@, nonce));
    m
}

/// Whether the data of an Ed25519 verification instruction names `authority` as
/// the key (bytes 16..48) and `message` as everything from byte 112 on.
pub open spec fn verifies(data: Seq<u8>, authority: Seq<u8>, message: Seq<u8>) -> bool {
    &&& data.len() >= 112
    &&& data.subrange(16, 48) == authority
    &&& data.len() > 112
    &&& data.subrange(112, data.len() as int) == message
}

/// Scanning the transaction's instructions from `i` up to (not including) `n`:
/// the verdict on the first Ed25519 verification met, `false` if there is none,
/// or the error of the first instruction that cannot be loaded.
pub open spec fn scan(sysvar: Seq<u8>, i: int, n: int, authority: Seq<u8>, message: Seq<u8>) -> Result<bool, ProgramError>
    decreases n - i,
{
    if i >= n || i < 0 {
        Ok(false)
    } else {
        match sysvar_instruction(i as usize, sysvar) {
            Err(e) => Err(e),
            Ok(ix) => if ix.0 == ED25519_PROGRAM_ID@ {
                Ok(verifies(ix.1, authority, message))
            } else {
                scan(sysvar, i + 1, n, authority, message)
            },
        }
    }
}

/// What `claim_reward` does once the accounts pass, on reward account `reward`,
/// the message given, and the instructions sysvar's data: the error, or `Ok`.
pub open spec fn claim_result(reward: Account<Reward>, message: Seq<u8>, sysvar: Seq<u8>) -> Result<(), Error<IntrospectionError>> {
    let expected = claim_message(reward.key@, reward.data.nonce);
    if reward.data.claimed {
        Err(Error::Program(IntrospectionError::AlreadyClaimed))
    } else if message != expected {
        Err(Error::Program(IntrospectionError::InvalidMessage))
    } else {
        let current = crate::bytes::le_u16_at(sysvar, sysvar.len() - 2);
        match scan(sysvar, 0, current as int, reward.data.authority@, expected) {
            Err(e) => Err(Error::Runtime(e)),
            Ok(false) => Err(Error::Program(IntrospectionError::InvalidSignature)),
            Ok(true) => Ok(()),
        }
    }
}

/// Whether a claim gets as far as reading the instructions sysvar: the claimer
/// signed, the sysvar is the real one, the reward is unclaimed and the message is
/// the expected one.
pub open spec fn claim_reads_sysvar(ctx: ClaimReward, message: Seq<u8>) -> bool {
    &&& ctx.claimer.is_signer
    &&& ctx.instruction_sysvar.key@ == INSTRUCTIONS_SYSVAR_ID@
    &&& !ctx.reward.data.claimed
    &&& message == claim_message(ctx.reward.key@, ctx.reward.data.nonce)
}

/// Marks the reward claimed and moves its nonce on, when the claim message names
/// this reward and its current nonce and the first Ed25519 verification before
/// this instruction checked the reward authority's key over that message.
pub fn claim_reward(ctx: &mut ClaimReward, signature: [u8; 64], message: Vec<u8>) -> (r: Result<RewardClaimed, Error<IntrospectionError>>)
    requires
        claim_reads_sysvar(*old(ctx), message@) ==> old(ctx).instruction_sysvar.data@.len() >= 2,
        claim_reads_sysvar(*old(ctx), message@)
            && claim_result(old(ctx).reward, message@, old(ctx).instruction_sysvar.data@) is Ok
            ==> old(ctx).reward.data.nonce < u64::MAX,
    ensures
        !old(ctx).claimer.is_signer ==> r == Err::<RewardClaimed, Error<IntrospectionError>>(Error::Anchor(ErrorCode::AccountNotSigner)),
        old(ctx).claimer.is_signer && old(ctx).instruction_sysvar.key@ != INSTRUCTIONS_SYSVAR_ID@
            ==> r == Err::<RewardClaimed, Error<IntrospectionError>>(Error::Anchor(ErrorCode::ConstraintAddress)),
        old(ctx).claimer.is_signer && old(ctx).instruction_sysvar.key@ == INSTRUCTIONS_SYSVAR_ID@ ==> match claim_result(old(ctx).reward, message@, old(ctx).instruction_sysvar.data@) {
            Err(e) => r == Err::<RewardClaimed, Error<IntrospectionError>>(e),
            Ok(_) => r == Ok::<RewardClaimed, Error<IntrospectionError>>(RewardClaimed {
                reward: old(ctx).reward.key, claimer: old(ctx).claimer.key, amount: old(ctx).reward.data.amount }),
        },
        r is Err ==> *final(ctx) == *old(ctx),
        r is Ok ==> {
            &&& final(ctx).reward.data == Reward { claimed: true, nonce: (old(ctx).reward.data.nonce + 1) as u64, ..old(ctx).reward.data }
            &&& final(ctx).reward.key == old(ctx).reward.key
            &&& final(ctx).reward.lamports == old(ctx).reward.lamports
            &&& final(ctx).claimer == old(ctx).claimer
            &&& final(ctx).instruction_sysvar == old(ctx).instruction_sysvar
        },
{
    check_signer(&ctx.claimer)?;
    if !crate::bytes::keys_eq(&ctx.instruction_sysvar.key, &INSTRUCTIONS_SYSVAR_ID) {
        return Err(Error::Anchor(ErrorCode::ConstraintAddress));
    }
    if ctx.reward.data.claimed {
        return Err(Error::Program(IntrospectionError::AlreadyClaimed));
    }
    let expected_message = build_claim_message(&ctx.reward.key, ctx.reward.data.nonce);
    if !bytes_equal(&message, &expected_message) {
        return Err(Error::Program(IntrospectionError::InvalidMessage));
    }
    let current_index = match load_current_index_checked(&ctx.instruction_sysvar) {
        Ok(i) => i,
        Err(e) => { return Err(Error::Runtime(e)); },
    };
    let ghost sysvar = ctx.instruction_sysvar.data@;
    let ghost authority = ctx.reward.data.authority@;
    let mut signature_verified = false;
    let mut i: u16 = 0;
    while i < current_index
        invariant_except_break
            i <= current_index,
            !signature_verified,
            scan(sysvar, 0, current_index as int, authority, expected_message@)
                == scan(sysvar, i as int, current_index as int, authority, expected_message@),
        invariant
            *ctx == *old(ctx),
            ctx.claimer.is_signer,
            !ctx.reward.data.claimed,
            message@ == expected_message@,
            expected_message@ == claim_message(ctx.reward.key@, ctx.reward.data.nonce),
            ctx.instruction_sysvar.key@ == INSTRUCTIONS_SYSVAR_ID@,
            sysvar == ctx.instruction_sysvar.data@,
            authority == ctx.reward.data.authority@,
            current_index == crate::bytes::le_u16_at(sysvar, sysvar.len() - 2),
        ensures
            scan(sysvar, 0, current_index as int, authority, expected_message@) == Ok::<bool, ProgramError>(signature_verified),
        decreases current_index - i,
    {
        let ix = match load_instruction_at_checked(i as usize, &ctx.instruction_sysvar) {
            Ok(ix) => ix,
            Err(e) => { return Err(Error::Runtime(e)); },
        };
        if crate::bytes::keys_eq(&ix.program_id, &ED25519_PROGRAM_ID) {
            if ix.data.len() >= MESSAGE_OFFSET {
                if crate::bytes::bytes_eq_key(&ix.data, PUBKEY_OFFSET, &ctx.reward.data.authority) {
                    if ix.data.len() > MESSAGE_OFFSET {
                        if suffix_equals(&ix.data, MESSAGE_OFFSET, &expected_message) {
                            signature_verified = true;
                        }
                    }
                }
            }
            break;
        }
        i = i + 1;
    }
    if !signature_verified {
        return Err(Error::Program(IntrospectionError::InvalidSignature));
    }
    ctx.reward.data.claimed = true;
    ctx.reward.data.nonce = ctx.reward.data.nonce + 1;
    Ok(RewardClaimed { reward: ctx.reward.key, claimer: ctx.claimer.key, amount: ctx.reward.data.amount })
}

} // verus!
