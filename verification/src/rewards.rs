use vstd::prelude::*;

use crate::state::{AdminStake, UserStake};

verus! {

/// Fixed-point scale of the reward accrued per staked token.
pub const REWARD_PRECISION: u128 = 1_000_000_000_000;

/// `now - last` can be computed in an `i64`.
pub open spec fn clock_delta_fits(last: i64, now: i64) -> bool {
    i64::MIN <= now - last <= i64::MAX
}

/// The time since `last` as the program feeds it to the reward formula:
/// the `i64` difference reinterpreted as a `u128` (a negative difference wraps).
pub open spec fn elapsed_ticks(last: i64, now: i64) -> u128 {
    ((now - last) as i64) as u128
}

/// What bringing the pool up to `now` adds to the reward per token:
/// `elapsed * rate * REWARD_PRECISION / total`, and nothing while no tokens are staked.
pub open spec fn accrual_increment(s: AdminStake, now: i64) -> int {
    if s.total_staked > 0 {
        (elapsed_ticks(s.last_update_time, now) * s.reward_rate * REWARD_PRECISION) / (
        s.total_staked as int)
    } else {
        0
    }
}

/// Bringing the pool up to `now` neither overflows nor underflows.
pub open spec fn accrual_ok(s: AdminStake, now: i64) -> bool {
    &&& clock_delta_fits(s.last_update_time, now)
    &&& s.total_staked > 0 ==> elapsed_ticks(s.last_update_time, now) * s.reward_rate
        <= u128::MAX
    &&& s.total_staked > 0 ==> elapsed_ticks(s.last_update_time, now) * s.reward_rate
        * REWARD_PRECISION <= u128::MAX
    &&& s.reward_per_token_stored + accrual_increment(s, now) <= u128::MAX
}

/// The reward per token once the pool is brought up to `now`.
pub open spec fn rpt_after_accrual(s: AdminStake, now: i64) -> u128 {
    (s.reward_per_token_stored + accrual_increment(s, now)) as u128
}

/// The reward a stake of `amount` has earned since its debt was recorded.
pub open spec fn owed_reward(amount: u64, rpt: u128, debt: u64) -> int {
    (amount * (rpt - debt)) / (REWARD_PRECISION as int)
}

/// The owed-reward formula neither underflows nor overflows.
pub open spec fn owed_ok(amount: u64, rpt: u128, debt: u64) -> bool {
    &&& debt <= rpt
    &&& amount * (rpt - debt) <= u128::MAX
}

/// Settling user `u` against pool `s` at `now` stays within the integer
/// ranges: the pool accrues, the new reward per token fits in the user's
/// `u64` debt, and the earned reward added to the pending one fits in a `u64`.
pub open spec fn settle_ok(s: AdminStake, u: UserStake, now: i64) -> bool {
    &&& accrual_ok(s, now)
    &&& rpt_after_accrual(s, now) <= u64::MAX
    &&& owed_ok(u.amount_staked, rpt_after_accrual(s, now), u.stake_debt)
    &&& u.pending_reward + owed_reward(u.amount_staked, rpt_after_accrual(s, now), u.stake_debt)
        <= u64::MAX
}

/// The user's pending reward once what its stake has earned up to `now` is added.
pub open spec fn settled_pending(s: AdminStake, u: UserStake, now: i64) -> u64 {
    (u.pending_reward + owed_reward(u.amount_staked, rpt_after_accrual(s, now), u.stake_debt)) as u64
}

/// The reward per token once the pool is brought up to `now`.
pub fn accrue(stake: &AdminStake, now: i64) -> (rpt: u128)
    requires
        accrual_ok(*stake, now),
    ensures
        rpt == rpt_after_accrual(*stake, now),
{
    let time_elapsed: i64 = now - stake.last_update_time;
    let mut rpt: u128 = stake.reward_per_token_stored;
    if stake.total_staked > 0 {
        let additional: u128 = (time_elapsed as u128).checked_mul(
            stake.reward_rate as u128,
        ).unwrap().checked_mul(REWARD_PRECISION).unwrap().checked_div(
            stake.total_staked as u128,
        ).unwrap();
        rpt = rpt.checked_add(additional).unwrap();
    }
    rpt
}

/// The reward owed to a stake of `amount` whose debt is `debt`, at reward per token `rpt`.
pub fn owed(amount: u64, rpt: u128, debt: u64) -> (reward: u128)
    requires
        owed_ok(amount, rpt, debt),
    ensures
        reward == owed_reward(amount, rpt, debt),
{
    amount as u128 * (rpt - debt as u128) / REWARD_PRECISION
}

/// Brings the pool up to `now` and adds what the user's stake has earned to its
/// pending reward: the new reward per token and the new pending reward.
pub fn settle(stake: &AdminStake, user: &UserStake, now: i64) -> (r: (u128, u64))
    requires
        settle_ok(*stake, *user, now),
    ensures
        r.0 == rpt_after_accrual(*stake, now),
        r.1 == settled_pending(*stake, *user, now),
{
    let rpt = accrue(stake, now);
    let earned = owed(user.amount_staked, rpt, user.stake_debt);
    let pending = user.pending_reward as u128 + earned;
    (rpt, pending as u64)
}

/// Whether bringing the pool up to `now` stays within the integer ranges.
pub fn accrual_fits(stake: &AdminStake, now: i64) -> (ok: bool)
    ensures
        ok == accrual_ok(*stake, now),
{
    let delta: i128 = now as i128 - stake.last_update_time as i128;
    if delta < i64::MIN as i128 || delta > i64::MAX as i128 {
        return false;
    }
    if stake.total_staked == 0 {
        return true;
    }
    let elapsed: u128 = (delta as i64) as u128;
    match elapsed.checked_mul(stake.reward_rate as u128) {
        None => false,
        Some(product) => match product.checked_mul(REWARD_PRECISION) {
            None => false,
            Some(scaled) => {
                let additional: u128 = scaled / (stake.total_staked as u128);
                stake.reward_per_token_stored.checked_add(additional).is_some()
            },
        },
    }
}

/// Whether settling the user against the pool at `now` stays within the integer ranges.
pub fn settle_fits(stake: &AdminStake, user: &UserStake, now: i64) -> (ok: bool)
    ensures
        ok == settle_ok(*stake, *user, now),
{
    if !accrual_fits(stake, now) {
        return false;
    }
    let rpt = accrue(stake, now);
    if rpt > u64::MAX as u128 || rpt < user.stake_debt as u128 {
        return false;
    }
    match (user.amount_staked as u128).checked_mul(rpt - user.stake_debt as u128) {
        None => false,
        Some(product) => {
            let earned: u128 = product / REWARD_PRECISION;
            user.pending_reward as u128 + earned <= u64::MAX as u128
        },
    }
}

} // verus!
