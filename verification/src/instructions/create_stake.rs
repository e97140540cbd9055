use vstd::prelude::*;

use crate::error::ErrorCode;
use crate::pubkey::{parse_pubkey, parsed_base58_pubkey, Pubkey};
use crate::state::AdminStake;

verus! {

/// The accounts of the instruction that creates a pool, as the program reads them.
/// `stake` holds all zeros when the instruction creates it.
#[derive(Clone, Copy, Debug)]
pub struct CreateStake {
    /// The signing administrator.
    pub admin: Pubkey,
    /// The mint of the token that the pool accepts.
    pub staking_mint: Pubkey,
    pub stake: AdminStake,
    /// The bump of the pool's vault address.
    pub vault_bump: u8,
}

/// The base58 address of the only mint a pool may be created for; it is also
/// the pool's reward mint.
pub open spec fn stake_token_mint_text() -> Seq<char> {
    "57dQxpHFknJs96w1Z1DTHi6QgxmR9i7XdhxKuZp8xtzQ"@
}

/// The pool as the instruction initialises it, with `reward_mint` as its reward mint.
pub open spec fn initialized_pool(ctx: CreateStake, reward_mint: Pubkey, reward_rate: u64, now: i64) -> AdminStake {
    AdminStake {
        admin: ctx.admin,
        staking_mint: ctx.staking_mint,
        reward_mint: reward_mint,
        reward_rate: reward_rate,
        last_update_time: now,
        reward_per_token_stored: 0,
        vault_bump: ctx.vault_bump,
        ..ctx.stake
    }
}

/// Initialises the pool for the mint `stake_token_mint`: refused with
/// `InvalidStakingMint`, and nothing changed, unless the accounts' staking mint
/// is that mint.
pub fn initialize_stake(ctx: &mut CreateStake, stake_token_mint: Pubkey, reward_rate: u64, now: i64) -> (r: Result<(), ErrorCode>)
    ensures
        old(ctx).staking_mint@ == stake_token_mint@ ==> r is Ok && *final(ctx) == (CreateStake {
            stake: initialized_pool(*old(ctx), stake_token_mint, reward_rate, now),
            ..*old(ctx)
        }),
        old(ctx).staking_mint@ != stake_token_mint@ ==> r == Err::<(), ErrorCode>(ErrorCode::InvalidStakingMint)
            && *final(ctx) == *old(ctx),
        r is Ok <==> old(ctx).staking_mint@ == stake_token_mint@,
        r is Ok ==> {
            &&& final(ctx).stake.reward_rate == reward_rate
            &&& final(ctx).stake.admin == old(ctx).admin
            &&& final(ctx).stake.staking_mint == old(ctx).staking_mint
            &&& final(ctx).stake.reward_mint == stake_token_mint
            &&& final(ctx).stake.last_update_time == now
            &&& final(ctx).stake.reward_per_token_stored == 0
            &&& final(ctx).stake.total_staked == old(ctx).stake.total_staked
            &&& final(ctx).stake.vault_bump == old(ctx).vault_bump
        },
{
    if !ctx.staking_mint.key_eq(&stake_token_mint) {
        return Err(ErrorCode::InvalidStakingMint);
    }
    ctx.stake.admin = ctx.admin;
    ctx.stake.staking_mint = ctx.staking_mint;
    ctx.stake.reward_mint = stake_token_mint;
    ctx.stake.reward_rate = reward_rate;
    ctx.stake.last_update_time = now;
    ctx.stake.reward_per_token_stored = 0;
    ctx.stake.vault_bump = ctx.vault_bump;
    Ok(())
}

/// Creates the pool at time `now` with reward rate `reward_rate`, for the one
/// mint whose address the program holds. Succeeds exactly when the accounts'
/// staking mint is that mint; the pool's reward mint is then that same mint.
/// Where the held address does not decode, the instruction is refused with
/// `InvalidStakingMint` as well.
pub fn create_stake(ctx: &mut CreateStake, reward_rate: u64, now: i64) -> (r: Result<(), ErrorCode>)
    ensures
        parsed_base58_pubkey(stake_token_mint_text()) matches Some(m) && old(ctx).staking_mint@ == m
            ==> r is Ok && *final(ctx) == (CreateStake {
                stake: initialized_pool(*old(ctx), old(ctx).staking_mint, reward_rate, now),
                ..*old(ctx)
            }),
        !(parsed_base58_pubkey(stake_token_mint_text()) matches Some(m) && old(ctx).staking_mint@ == m)
            ==> r == Err::<(), ErrorCode>(ErrorCode::InvalidStakingMint) && *final(ctx) == *old(ctx),
        r is Ok ==> {
            &&& final(ctx).stake.reward_rate == reward_rate
            &&& final(ctx).stake.admin == old(ctx).admin
            &&& final(ctx).stake.staking_mint == old(ctx).staking_mint
            &&& final(ctx).stake.reward_mint == old(ctx).staking_mint
            &&& final(ctx).stake.last_update_time == now
            &&& final(ctx).stake.reward_per_token_stored == 0
            &&& final(ctx).stake.total_staked == old(ctx).stake.total_staked
            &&& final(ctx).stake.vault_bump == old(ctx).vault_bump
        },
{
    match parse_pubkey("57dQxpHFknJs96w1Z1DTHi6QgxmR9i7XdhxKuZp8xtzQ") {
        Some(stake_token_mint) => {
            proof {
                if ctx.staking_mint@ == stake_token_mint@ {
                    assert(ctx.staking_mint.bytes =~= stake_token_mint.bytes);
                }
            }
            initialize_stake(ctx, stake_token_mint, reward_rate, now)
        },
        None => Err(ErrorCode::InvalidStakingMint),
    }
}

} // verus!
