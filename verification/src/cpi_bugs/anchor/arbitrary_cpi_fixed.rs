//! A treasury at a derived address that signs only the one call the program
//! builds itself: a fixed reward, through the system program, to the signer.
use crate::framework::{
    check_program, check_seeds, check_signer, is_pda, pda_bump, seed_list1, Error, ErrorCode, NoProgramError,
    SystemTransfer, SYSTEM_PROGRAM_ID,
};
use crate::runtime::{AccountInfo, Pubkey};
use vstd::prelude::*;

verus! {

/// The program's address, `4NyX5VfGwY2MhhWpPwd816AnEaW9kBgdB91Kwct4QTcg`.
pub const ID: Pubkey = [
    50, 52, 41, 221, 5, 59, 209, 104, 80, 182, 198, 253, 49, 120, 98, 82, 213, 229, 129, 127, 227,
    125, 169, 254, 169, 164, 204, 78, 231, 12, 97, 37,
];

/// The bytes of `"treasury"`.
pub const TREASURY_SEED: [u8; 8] = [116, 114, 101, 97, 115, 117, 114, 121];

/// The lamports one claim pays.
pub const REWARD_AMOUNT: u64 = 10_000;

pub struct ClaimReward {
    pub pda_treasury: AccountInfo,
    pub recipient: AccountInfo,
    pub system_program: AccountInfo,
}

/// The event a claim emits: who was paid and how much.
#[derive(Clone, Copy, Debug, PartialEq, Eq)]
pub struct RewardClaimed {
    pub recipient: Pubkey,
    pub amount: u64,
}

/// The transfer `claim_reward` asks the system program to make, signed for the
/// treasury with its seed followed by `treasury_bump`, and the event emitted
/// once it is made.
#[derive(Clone, Copy, Debug, PartialEq, Eq)]
pub struct RewardPayment {
    pub transfer: SystemTransfer,
    pub treasury_bump: u8,
    pub event: RewardClaimed,
}

/// What `claim_reward` returns: the fixed reward from the treasury to the
/// signing recipient, or the first failed check.
pub open spec fn claim_reward_result(ctx: ClaimReward) -> Result<RewardPayment, Error<NoProgramError>> {
    if !ctx.recipient.is_signer {
        Err(Error::Anchor(ErrorCode::AccountNotSigner))
    } else if ctx.system_program.key@ != SYSTEM_PROGRAM_ID@ {
        Err(Error::Anchor(ErrorCode::InvalidProgramId))
    } else if !ctx.system_program.executable {
        Err(Error::Anchor(ErrorCode::InvalidProgramExecutable))
    } else if !is_pda(ctx.pda_treasury.key@, seq![TREASURY_SEED@], ID@) {
        Err(Error::Anchor(ErrorCode::ConstraintSeeds))
    } else {
        Ok(RewardPayment {
            transfer: SystemTransfer { from: ctx.pda_treasury.key, to: ctx.recipient.key, lamports: REWARD_AMOUNT },
            treasury_bump: pda_bump(seq![TREASURY_SEED@], ID@),
            event: RewardClaimed { recipient: ctx.recipient.key, amount: REWARD_AMOUNT },
        })
    }
}

/// Builds the reward payment, which the caller has the system program make.
pub fn claim_reward(ctx: &ClaimReward) -> (r: Result<RewardPayment, Error<NoProgramError>>)
    ensures
        r == claim_reward_result(*ctx),
{
    check_signer(&ctx.recipient)?;
    check_program(&ctx.system_program, &SYSTEM_PROGRAM_ID)?;
    let bump = check_seeds(&ctx.pda_treasury.key, &seed_list1(&TREASURY_SEED), &ID)?;
    Ok(RewardPayment {
        transfer: SystemTransfer { from: ctx.pda_treasury.key, to: ctx.recipient.key, lamports: REWARD_AMOUNT },
        treasury_bump: bump,
        event: RewardClaimed { recipient: ctx.recipient.key, amount: REWARD_AMOUNT },
    })
}

} // verus!
