use vstd::prelude::*;

use crate::instructions::{TokenTransfer, TransferRoute};
use crate::rewards::{
    rpt_after_accrual, settle, settle_fits, settle_ok, settled_pending, REWARD_PRECISION,
};
use crate::state::{AdminStake, UserStake};

verus! {

/// The accounts of the claim instruction, as the program reads them.
#[derive(Clone, Copy, Debug)]
pub struct ClaimReward {
    pub stake: AdminStake,
    pub user_stake: UserStake,
}

/// Claiming at `now` does not overflow or underflow.
pub open spec fn claim_reward_safe(ctx: ClaimReward, now: i64) -> bool {
    settle_ok(ctx.stake, ctx.user_stake, now)
}

/// The reward paid out by a claim at `now`: the pending reward together with
/// what the stake has earned since its debt was recorded.
pub open spec fn claim_payout(ctx: ClaimReward, now: i64) -> u64 {
    settled_pending(ctx.stake, ctx.user_stake, now)
}

/// The accounts after a claim at `now`.
pub open spec fn claimed(ctx: ClaimReward, now: i64) -> ClaimReward {
    let rpt = rpt_after_accrual(ctx.stake, now);
    ClaimReward {
        stake: AdminStake { reward_per_token_stored: rpt, last_update_time: now, ..ctx.stake },
        user_stake: UserStake { stake_debt: rpt as u64, pending_reward: 0, ..ctx.user_stake },
    }
}

/// Claims the user's reward up to `now`: brings the pool's reward per token up
/// to `now`, pays out the pending reward together with what the stake has earned,
/// resets the user's reward debt and pending reward, and hands back the payout
/// to move from the vault to the user.
pub fn claim_reward(ctx: &mut ClaimReward, now: i64) -> (t: TokenTransfer)
    requires
        claim_reward_safe(*old(ctx), now),
    ensures
        *final(ctx) == claimed(*old(ctx), now),
        t == (TokenTransfer { route: TransferRoute::VaultToUser, amount: claim_payout(*old(ctx), now) }),
        t.route == TransferRoute::VaultToUser,
        final(ctx).stake.reward_per_token_stored == old(ctx).stake.reward_per_token_stored + (if old(ctx).stake.total_staked > 0 { ((((now - old(ctx).stake.last_update_time) as i64) as u128) * old(ctx).stake.reward_rate * REWARD_PRECISION) / (old(ctx).stake.total_staked as int) } else { 0 }),
        final(ctx).stake.last_update_time == now,
        final(ctx).stake.total_staked == old(ctx).stake.total_staked,
        final(ctx).stake.reward_rate == old(ctx).stake.reward_rate,
        t.amount == old(ctx).user_stake.pending_reward + (old(ctx).user_stake.amount_staked * (
        final(ctx).stake.reward_per_token_stored - old(ctx).user_stake.stake_debt)) / (
        REWARD_PRECISION as int),
        t.amount >= (old(ctx).user_stake.amount_staked * (final(ctx).stake.reward_per_token_stored
            - old(ctx).user_stake.stake_debt)) / (REWARD_PRECISION as int),
        final(ctx).user_stake.stake_debt == final(ctx).stake.reward_per_token_stored,
        final(ctx).user_stake.pending_reward == 0,
        final(ctx).user_stake.amount_staked == old(ctx).user_stake.amount_staked,
{
    let curent_time = now;
    let (rpt, pending_reward) = settle(&ctx.stake, &ctx.user_stake, curent_time);
    ctx.stake.reward_per_token_stored = rpt;
    ctx.stake.last_update_time = curent_time;

    let payout = TokenTransfer { route: TransferRoute::VaultToUser, amount: pending_reward };
    ctx.user_stake.stake_debt = rpt as u64;
    ctx.user_stake.pending_reward = 0;
    payout
}

/// Whether claiming at `now` stays within the integer ranges; where it does
/// not, the instruction aborts.
pub fn claim_reward_is_safe(ctx: &ClaimReward, now: i64) -> (ok: bool)
    ensures
        ok == claim_reward_safe(*ctx, now),
{
    settle_fits(&ctx.stake, &ctx.user_stake, now)
}

} // verus!
