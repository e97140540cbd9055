use vstd::prelude::*;

use crate::event::StakePlaced;
use crate::instructions::{TokenTransfer, TransferRoute};
use crate::pubkey::Pubkey;
use crate::rewards::{
    rpt_after_accrual, settle, settle_fits, settle_ok, settled_pending, REWARD_PRECISION,
};
use crate::state::{AdminStake, UserStake};

verus! {

/// The accounts of the stake instruction, as the program reads them.
/// `user_stake` holds all zeros when the instruction creates it.
#[derive(Clone, Copy, Debug)]
pub struct StakeToken {
    /// The signing user.
    pub user: Pubkey,
    /// The address of the pool account.
    pub stake_key: Pubkey,
    pub stake: AdminStake,
    pub user_stake: UserStake,
    /// The bump of the pool's vault address.
    pub vault_bump: u8,
}

/// Staking at `now` with lock `stake_time` does not overflow.
pub open spec fn stake_token_safe(ctx: StakeToken, stake_time: i64, now: i64) -> bool {
    &&& settle_ok(ctx.stake, ctx.user_stake, now)
    &&& i64::MIN <= stake_time + now <= i64::MAX
}

/// The pool after staking `amount` at `now`.
pub open spec fn staked_pool(s: AdminStake, amount: u64, now: i64) -> AdminStake {
    AdminStake {
        reward_per_token_stored: rpt_after_accrual(s, now),
        last_update_time: now,
        total_staked: s.total_staked.saturating_add(amount),
        ..s
    }
}

/// The user's record after staking `amount` at `now` for `stake_time`.
pub open spec fn staked_user(ctx: StakeToken, amount: u64, stake_time: i64, now: i64) -> UserStake {
    UserStake {
        user: ctx.user,
        stake: ctx.stake_key,
        amount_staked: ctx.user_stake.amount_staked.saturating_add(amount),
        pending_reward: settled_pending(ctx.stake, ctx.user_stake, now),
        stake_time: stake_time,
        start_time: now,
        stake_debt: rpt_after_accrual(ctx.stake, now) as u64,
        end_time: (stake_time + now) as i64,
        vault_bump: ctx.vault_bump,
    }
}

/// The accounts after staking.
pub open spec fn staked(ctx: StakeToken, amount: u64, stake_time: i64, now: i64) -> StakeToken {
    StakeToken {
        stake: staked_pool(ctx.stake, amount, now),
        user_stake: staked_user(ctx, amount, stake_time, now),
        ..ctx
    }
}

/// Stakes `amount_to_stake` tokens at time `now`, locked for `stake_time`:
/// brings the pool's reward per token up to `now`, adds what the user's earlier
/// stake has earned to its pending reward, adds the amount to the pool and the
/// user, and restarts the user's lock and reward debt. Hands back the deposit to
/// move from the user into the vault and the event to emit.
pub fn stake_token(ctx: &mut StakeToken, amount_to_stake: u64, stake_time: i64, now: i64) -> (r: (
    TokenTransfer,
    StakePlaced,
))
    requires
        stake_token_safe(*old(ctx), stake_time, now),
    ensures
        *final(ctx) == staked(*old(ctx), amount_to_stake, stake_time, now),
        r.0 == (TokenTransfer { route: TransferRoute::UserToVault, amount: amount_to_stake }),
        r.1 == (StakePlaced { user: old(ctx).user, stake_amount: amount_to_stake, stake_time }),
        final(ctx).stake.reward_per_token_stored == old(ctx).stake.reward_per_token_stored + (if old(ctx).stake.total_staked > 0 { ((((now - old(ctx).stake.last_update_time) as i64) as u128) * old(ctx).stake.reward_rate * REWARD_PRECISION) / (old(ctx).stake.total_staked as int) } else { 0 }),
        final(ctx).stake.last_update_time == now,
        final(ctx).stake.total_staked == (if old(ctx).stake.total_staked + amount_to_stake > u64::MAX {
            u64::MAX as int
        } else {
            old(ctx).stake.total_staked + amount_to_stake
        }),
        final(ctx).stake.reward_rate == old(ctx).stake.reward_rate,
        final(ctx).user_stake.stake_debt == final(ctx).stake.reward_per_token_stored,
        final(ctx).user_stake.pending_reward == old(ctx).user_stake.pending_reward + (
        old(ctx).user_stake.amount_staked * (final(ctx).stake.reward_per_token_stored
            - old(ctx).user_stake.stake_debt)) / (REWARD_PRECISION as int),
        final(ctx).user_stake.amount_staked == (if old(ctx).user_stake.amount_staked + amount_to_stake
            > u64::MAX {
            u64::MAX as int
        } else {
            old(ctx).user_stake.amount_staked + amount_to_stake
        }),
        final(ctx).user_stake.stake_time == stake_time,
        final(ctx).user_stake.start_time == now,
        final(ctx).user_stake.end_time == stake_time + now,
        final(ctx).user_stake.user == old(ctx).user,
        final(ctx).user_stake.stake == old(ctx).stake_key,
{
    let curent_time = now;
    let (reward_per_token_stored, pending_reward) = settle(&ctx.stake, &ctx.user_stake, curent_time);

    ctx.stake.reward_per_token_stored = reward_per_token_stored;
    ctx.stake.last_update_time = curent_time;
    ctx.stake.total_staked = ctx.stake.total_staked.saturating_add(amount_to_stake);

    ctx.user_stake.user = ctx.user;
    ctx.user_stake.stake = ctx.stake_key;
    ctx.user_stake.amount_staked = ctx.user_stake.amount_staked.saturating_add(amount_to_stake);
    ctx.user_stake.pending_reward = pending_reward;
    ctx.user_stake.stake_time = stake_time;
    ctx.user_stake.start_time = curent_time;
    ctx.user_stake.stake_debt = reward_per_token_stored as u64;
    ctx.user_stake.end_time = ctx.user_stake.stake_time + ctx.user_stake.start_time;
    ctx.user_stake.vault_bump = ctx.vault_bump;

    let deposit = TokenTransfer { route: TransferRoute::UserToVault, amount: amount_to_stake };
    let event = StakePlaced { user: ctx.user, stake_amount: amount_to_stake, stake_time };
    (deposit, event)
}

/// Whether staking at `now` for `stake_time` stays within the integer ranges;
/// where it does not, the instruction aborts.
pub fn stake_token_is_safe(ctx: &StakeToken, stake_time: i64, now: i64) -> (ok: bool)
    ensures
        ok == stake_token_safe(*ctx, stake_time, now),
{
    settle_fits(&ctx.stake, &ctx.user_stake, now) && stake_time.checked_add(now).is_some()
}

} // verus!
