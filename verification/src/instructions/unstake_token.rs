use vstd::prelude::*;

use crate::error::ErrorCode;
use crate::instructions::{TokenTransfer, TransferRoute};
use crate::rewards::{
    rpt_after_accrual, settle, settle_fits, settle_ok, settled_pending, REWARD_PRECISION,
};
use crate::state::{AdminStake, UserStake};

verus! {

/// The accounts of the unstake instruction, as the program reads them.
#[derive(Clone, Copy, Debug)]
pub struct UnstakeToken {
    pub stake: AdminStake,
    pub user_stake: UserStake,
}

/// The user's lock has run out at `now`.
pub open spec fn unstake_ready(ctx: UnstakeToken, now: i64) -> bool {
    ctx.user_stake.end_time <= now
}

/// Unstaking at `now` does not overflow or underflow.
pub open spec fn unstake_token_safe(ctx: UnstakeToken, now: i64) -> bool {
    unstake_ready(ctx, now) ==> settle_ok(ctx.stake, ctx.user_stake, now)
}

/// The accounts after a successful unstake at `now`.
pub open spec fn unstaked(ctx: UnstakeToken, now: i64) -> UnstakeToken {
    let rpt = rpt_after_accrual(ctx.stake, now);
    UnstakeToken {
        stake: AdminStake {
            reward_per_token_stored: rpt,
            last_update_time: now,
            total_staked: ctx.stake.total_staked.saturating_sub(ctx.user_stake.amount_staked),
            ..ctx.stake
        },
        user_stake: UserStake {
            pending_reward: settled_pending(ctx.stake, ctx.user_stake, now),
            stake_debt: rpt as u64,
            amount_staked: 0,
            ..ctx.user_stake
        },
    }
}

/// What the unstake instruction answers at `now`: the refund of the whole
/// stake, or the refusal while the lock runs.
pub open spec fn unstake_outcome(ctx: UnstakeToken, now: i64) -> Result<TokenTransfer, ErrorCode> {
    if unstake_ready(ctx, now) {
        Ok(TokenTransfer { route: TransferRoute::VaultToUser, amount: ctx.user_stake.amount_staked })
    } else {
        Err(ErrorCode::StakeTimeNotCompleted)
    }
}

/// Unstakes everything the user holds at time `now`. Refused, with nothing
/// changed, while the lock runs. Otherwise brings the pool's reward per token up
/// to `now`, takes the user's amount out of the pool total, adds the reward
/// earned to the user's pending reward, and hands back the refund to move from
/// the vault to the user.
pub fn unstake_token(ctx: &mut UnstakeToken, now: i64) -> (r: Result<TokenTransfer, ErrorCode>)
    requires
        unstake_token_safe(*old(ctx), now),
    ensures
        r == unstake_outcome(*old(ctx), now),
        unstake_ready(*old(ctx), now) ==> *final(ctx) == unstaked(*old(ctx), now),
        !unstake_ready(*old(ctx), now) ==> *final(ctx) == *old(ctx),
        r is Err <==> old(ctx).user_stake.end_time > now,
        r matches Ok(t) ==> {
            &&& t.route == TransferRoute::VaultToUser
            &&& t.amount == old(ctx).user_stake.amount_staked
            &&& final(ctx).stake.reward_per_token_stored == old(ctx).stake.reward_per_token_stored + (if old(ctx).stake.total_staked > 0 { ((((now - old(ctx).stake.last_update_time) as i64) as u128) * old(ctx).stake.reward_rate * REWARD_PRECISION) / (old(ctx).stake.total_staked as int) } else { 0 })
            &&& final(ctx).stake.last_update_time == now
            &&& final(ctx).stake.total_staked == (if old(ctx).user_stake.amount_staked
                > old(ctx).stake.total_staked {
                0
            } else {
                old(ctx).stake.total_staked - old(ctx).user_stake.amount_staked
            })
            &&& final(ctx).stake.reward_rate == old(ctx).stake.reward_rate
            &&& final(ctx).user_stake.amount_staked == 0
            &&& final(ctx).user_stake.stake_debt == final(ctx).stake.reward_per_token_stored
            &&& final(ctx).user_stake.pending_reward == old(ctx).user_stake.pending_reward + (
            old(ctx).user_stake.amount_staked * (final(ctx).stake.reward_per_token_stored
                - old(ctx).user_stake.stake_debt)) / (REWARD_PRECISION as int)
            &&& final(ctx).user_stake.end_time == old(ctx).user_stake.end_time
        },
{
    if !(ctx.user_stake.end_time <= now) {
        return Err(ErrorCode::StakeTimeNotCompleted);
    }
    let curent_time = now;
    let (rpt, pending_reward) = settle(&ctx.stake, &ctx.user_stake, curent_time);
    ctx.stake.reward_per_token_stored = rpt;
    ctx.stake.last_update_time = curent_time;

    ctx.stake.total_staked = ctx.stake.total_staked.saturating_sub(ctx.user_stake.amount_staked);

    ctx.user_stake.pending_reward = pending_reward;
    ctx.user_stake.stake_debt = rpt as u64;

    let refund = TokenTransfer {
        route: TransferRoute::VaultToUser,
        amount: ctx.user_stake.amount_staked,
    };
    ctx.user_stake.amount_staked = 0;
    Ok(refund)
}

/// Whether unstaking at `now` stays within the integer ranges; where it does
/// not, the instruction aborts.
pub fn unstake_token_is_safe(ctx: &UnstakeToken, now: i64) -> (ok: bool)
    ensures
        ok == unstake_token_safe(*ctx, now),
{
    if !(ctx.user_stake.end_time <= now) {
        return true;
    }
    settle_fits(&ctx.stake, &ctx.user_stake, now)
}

} // verus!
