//! Properties of the program that span instructions or hold of every state.

use vstd::prelude::*;

use vstd::arithmetic::div_mod::{lemma_div_is_ordered, lemma_div_multiples_vanish, lemma_fundamental_div_mod};
use vstd::arithmetic::mul::lemma_mul_inequality;

use crate::error::ErrorCode;
use crate::instructions::claim_reward::{claim_payout, claim_reward_safe, claimed, ClaimReward};
use crate::instructions::create_stake::{initialized_pool, CreateStake};
use crate::instructions::mint_token::minted_units;
use crate::pubkey::Pubkey;
use vstd::arithmetic::power::pow;
use crate::instructions::stake_token::{stake_token_safe, staked, StakeToken};
use crate::instructions::unstake_token::{
    unstake_outcome, unstake_ready, unstake_token_safe, unstaked, UnstakeToken,
};
use crate::instructions::{TokenTransfer, TransferRoute};
use crate::rewards::{
    accrual_increment, accrual_ok, elapsed_ticks, owed_reward, rpt_after_accrual,
    settled_pending, REWARD_PRECISION,
};
use crate::state::{AdminStake, UserStake};

verus! {

/// The tokens that a sequence of user records holds staked, in all.
pub open spec fn sum_staked(users: Seq<UserStake>) -> int
    decreases users.len(),
{
    if users.len() == 0 {
        0
    } else {
        sum_staked(users.drop_last()) + users.last().amount_staked
    }
}

/// Replacing one record changes the sum by the difference of the two amounts.
proof fn lemma_sum_staked_update(users: Seq<UserStake>, i: int, u: UserStake)
    requires
        0 <= i < users.len(),
    ensures
        sum_staked(users.update(i, u)) == sum_staked(users) - users[i].amount_staked
            + u.amount_staked,
    decreases users.len(),
{
    let updated = users.update(i, u);
    if i == users.len() - 1 {
        assert(updated.drop_last() =~= users.drop_last());
    } else {
        lemma_sum_staked_update(users.drop_last(), i, u);
        assert(updated.drop_last() =~= users.drop_last().update(i, u));
    }
}

/// No record holds more than the sum of all.
proof fn lemma_member_at_most_sum(users: Seq<UserStake>, i: int)
    requires
        0 <= i < users.len(),
    ensures
        users[i].amount_staked <= sum_staked(users),
    decreases users.len(),
{
    lemma_sum_staked_nonnegative(users.drop_last());
    if i < users.len() - 1 {
        lemma_member_at_most_sum(users.drop_last(), i);
    }
}

proof fn lemma_sum_staked_nonnegative(users: Seq<UserStake>)
    ensures
        sum_staked(users) >= 0,
    decreases users.len(),
{
    if users.len() > 0 {
        lemma_sum_staked_nonnegative(users.drop_last());
    }
}


/// The accrual adds nothing negative.
proof fn lemma_accrual_nonnegative(s: AdminStake, now: i64)
    ensures
        accrual_increment(s, now) >= 0,
{
    if s.total_staked > 0 {
        let e = elapsed_ticks(s.last_update_time, now) as int;
        let r = s.reward_rate as int;
        let t = s.total_staked as int;
        assert((e * r * REWARD_PRECISION) / t >= 0) by (nonlinear_arith)
            requires
                e >= 0,
                r >= 0,
                t > 0,
        ;
    }
}

/// Bringing a pool up to the time it was last brought up to changes nothing.
proof fn lemma_accrual_at_last_update(s: AdminStake)
    ensures
        accrual_increment(s, s.last_update_time) == 0,
        accrual_ok(s, s.last_update_time),
        rpt_after_accrual(s, s.last_update_time) == s.reward_per_token_stored,
{
    let now = s.last_update_time;
    assert(elapsed_ticks(s.last_update_time, now) == 0);
    let r = s.reward_rate as int;
    assert(0 * r == 0 && 0 * r * REWARD_PRECISION == 0) by (nonlinear_arith);
}

/// Nothing is owed on a reward per token equal to the debt.
proof fn lemma_nothing_owed_at_debt(amount: u64, debt: u64)
    ensures
        owed_reward(amount, debt as u128, debt) == 0,
{
    let a = amount as int;
    assert(a * 0 == 0) by (nonlinear_arith);
}

/// The reward accrued per token never decreases: bringing a pool up to date
/// leaves it at least where it was, and so do staking, unstaking and claiming,
/// each of which also records `now` as the pool's last update.
pub proof fn law_reward_per_token_never_decreases(ctx: StakeToken, amount: u64, stake_time: i64, now: i64)
    ensures
        accrual_ok(ctx.stake, now) ==> rpt_after_accrual(ctx.stake, now)
            >= ctx.stake.reward_per_token_stored,
        stake_token_safe(ctx, stake_time, now) ==> {
            &&& staked(ctx, amount, stake_time, now).stake.reward_per_token_stored
                >= ctx.stake.reward_per_token_stored
            &&& staked(ctx, amount, stake_time, now).stake.last_update_time == now
        },
        unstake_token_safe(UnstakeToken { stake: ctx.stake, user_stake: ctx.user_stake }, now)
            && unstake_ready(UnstakeToken { stake: ctx.stake, user_stake: ctx.user_stake }, now)
            ==> {
            &&& unstaked(UnstakeToken { stake: ctx.stake, user_stake: ctx.user_stake }, now).stake.reward_per_token_stored
                >= ctx.stake.reward_per_token_stored
            &&& unstaked(UnstakeToken { stake: ctx.stake, user_stake: ctx.user_stake }, now).stake.last_update_time
                == now
        },
        claim_reward_safe(ClaimReward { stake: ctx.stake, user_stake: ctx.user_stake }, now) ==> {
            &&& claimed(ClaimReward { stake: ctx.stake, user_stake: ctx.user_stake }, now).stake.reward_per_token_stored
                >= ctx.stake.reward_per_token_stored
            &&& claimed(ClaimReward { stake: ctx.stake, user_stake: ctx.user_stake }, now).stake.last_update_time
                == now
        },
{
    lemma_accrual_nonnegative(ctx.stake, now);
}

/// The pool's total equals the sum of its users' stakes, and staking keeps it so,
/// as long as the total does not reach the `u64` limit.
pub proof fn law_stake_keeps_pool_balanced(
    ctx: StakeToken,
    users: Seq<UserStake>,
    i: int,
    amount: u64,
    stake_time: i64,
    now: i64,
)
    requires
        0 <= i < users.len(),
        users[i] == ctx.user_stake,
        ctx.stake.total_staked == sum_staked(users),
        stake_token_safe(ctx, stake_time, now),
        ctx.stake.total_staked + amount <= u64::MAX,
    ensures
        staked(ctx, amount, stake_time, now).stake.total_staked == sum_staked(
            users.update(i, staked(ctx, amount, stake_time, now).user_stake),
        ),
        staked(ctx, amount, stake_time, now).stake.total_staked == ctx.stake.total_staked + amount,
{
    lemma_member_at_most_sum(users, i);
    lemma_sum_staked_update(users, i, staked(ctx, amount, stake_time, now).user_stake);
}

/// The pool's total equals the sum of its users' stakes, and unstaking keeps it
/// so; the user's whole stake comes off the total, which never saturates.
pub proof fn law_unstake_keeps_pool_balanced(
    ctx: UnstakeToken,
    users: Seq<UserStake>,
    i: int,
    now: i64,
)
    requires
        0 <= i < users.len(),
        users[i] == ctx.user_stake,
        ctx.stake.total_staked == sum_staked(users),
        unstake_token_safe(ctx, now),
    ensures
        unstake_ready(ctx, now) ==> unstaked(ctx, now).stake.total_staked == sum_staked(
            users.update(i, unstaked(ctx, now).user_stake),
        ),
        unstake_ready(ctx, now) ==> unstaked(ctx, now).stake.total_staked
            == ctx.stake.total_staked - ctx.user_stake.amount_staked,
{
    lemma_member_at_most_sum(users, i);
    lemma_sum_staked_update(users, i, unstaked(ctx, now).user_stake);
}

/// The pool's total equals the sum of its users' stakes, and claiming keeps it so.
pub proof fn law_claim_keeps_pool_balanced(
    ctx: ClaimReward,
    users: Seq<UserStake>,
    i: int,
    now: i64,
)
    requires
        0 <= i < users.len(),
        users[i] == ctx.user_stake,
        ctx.stake.total_staked == sum_staked(users),
        claim_reward_safe(ctx, now),
    ensures
        claimed(ctx, now).stake.total_staked == sum_staked(
            users.update(i, claimed(ctx, now).user_stake),
        ),
{
    lemma_sum_staked_update(users, i, claimed(ctx, now).user_stake);
}

/// Every user's reward debt is at most the pool's reward per token.
pub open spec fn debts_covered(s: AdminStake, users: Seq<UserStake>) -> bool {
    forall|j: int| 0 <= j < users.len() ==> #[trigger] users[j].stake_debt <= s.reward_per_token_stored
}

/// No user's reward debt ever exceeds the pool's reward per token: staking keeps it so.
pub proof fn law_stake_keeps_debts_covered(
    ctx: StakeToken,
    users: Seq<UserStake>,
    i: int,
    amount: u64,
    stake_time: i64,
    now: i64,
)
    requires
        0 <= i < users.len(),
        users[i] == ctx.user_stake,
        debts_covered(ctx.stake, users),
        stake_token_safe(ctx, stake_time, now),
    ensures
        debts_covered(
            staked(ctx, amount, stake_time, now).stake,
            users.update(i, staked(ctx, amount, stake_time, now).user_stake),
        ),
{
    lemma_accrual_nonnegative(ctx.stake, now);
}

/// No user's reward debt ever exceeds the pool's reward per token: unstaking,
/// refused or not, keeps it so.
pub proof fn law_unstake_keeps_debts_covered(ctx: UnstakeToken, users: Seq<UserStake>, i: int, now: i64)
    requires
        0 <= i < users.len(),
        users[i] == ctx.user_stake,
        debts_covered(ctx.stake, users),
        unstake_token_safe(ctx, now),
    ensures
        unstake_ready(ctx, now) ==> debts_covered(
            unstaked(ctx, now).stake,
            users.update(i, unstaked(ctx, now).user_stake),
        ),
{
    lemma_accrual_nonnegative(ctx.stake, now);
}

/// No user's reward debt ever exceeds the pool's reward per token: claiming keeps it so.
pub proof fn law_claim_keeps_debts_covered(ctx: ClaimReward, users: Seq<UserStake>, i: int, now: i64)
    requires
        0 <= i < users.len(),
        users[i] == ctx.user_stake,
        debts_covered(ctx.stake, users),
        claim_reward_safe(ctx, now),
    ensures
        debts_covered(claimed(ctx, now).stake, users.update(i, claimed(ctx, now).user_stake)),
{
    lemma_accrual_nonnegative(ctx.stake, now);
}

/// Tokens staked stay locked until the stake time has passed; from then on,
/// unstaking gives back everything the user has staked and takes it out of the
/// pool again.
pub proof fn law_unstake_returns_stake(
    ctx: StakeToken,
    amount: u64,
    stake_time: i64,
    now: i64,
    later: i64,
)
    requires
        stake_token_safe(ctx, stake_time, now),
        ctx.user_stake.amount_staked <= ctx.stake.total_staked,
        ctx.stake.total_staked + amount <= u64::MAX,
    ensures
        later < now + stake_time ==> unstake_outcome(
            UnstakeToken {
                stake: staked(ctx, amount, stake_time, now).stake,
                user_stake: staked(ctx, amount, stake_time, now).user_stake,
            },
            later,
        ) == Err::<TokenTransfer, ErrorCode>(ErrorCode::StakeTimeNotCompleted),
        later >= now + stake_time ==> unstake_outcome(
            UnstakeToken {
                stake: staked(ctx, amount, stake_time, now).stake,
                user_stake: staked(ctx, amount, stake_time, now).user_stake,
            },
            later,
        ) == Ok::<TokenTransfer, ErrorCode>(
            TokenTransfer {
                route: TransferRoute::VaultToUser,
                amount: (ctx.user_stake.amount_staked + amount) as u64,
            },
        ),
        later >= now + stake_time ==> unstaked(
            UnstakeToken {
                stake: staked(ctx, amount, stake_time, now).stake,
                user_stake: staked(ctx, amount, stake_time, now).user_stake,
            },
            later,
        ).stake.total_staked == ctx.stake.total_staked - ctx.user_stake.amount_staked,
        later >= now + stake_time ==> unstaked(
            UnstakeToken {
                stake: staked(ctx, amount, stake_time, now).stake,
                user_stake: staked(ctx, amount, stake_time, now).user_stake,
            },
            later,
        ).user_stake.amount_staked == 0,
{
}

/// A claim right after a claim pays nothing and changes nothing.
pub proof fn law_second_claim_pays_nothing(ctx: ClaimReward, now: i64)
    requires
        claim_reward_safe(ctx, now),
    ensures
        claim_reward_safe(claimed(ctx, now), now),
        claim_payout(claimed(ctx, now), now) == 0,
        claimed(claimed(ctx, now), now) == claimed(ctx, now),
{
    let once = claimed(ctx, now);
    lemma_accrual_at_last_update(once.stake);
    lemma_nothing_owed_at_debt(once.user_stake.amount_staked, once.user_stake.stake_debt);
    assert(once.user_stake.stake_debt as u128 == once.stake.reward_per_token_stored);
}

/// Once one user has claimed at `now`, what any other user's claim at `now`
/// pays, and the pool it leaves, are as if the first claim had not happened:
/// the order of claims at one time does not matter.
pub proof fn law_claim_order_does_not_matter(ctx: ClaimReward, other: UserStake, now: i64)
    requires
        claim_reward_safe(ctx, now),
    ensures
        claim_reward_safe(ClaimReward { stake: claimed(ctx, now).stake, user_stake: other }, now)
            == claim_reward_safe(ClaimReward { stake: ctx.stake, user_stake: other }, now),
        claim_payout(ClaimReward { stake: claimed(ctx, now).stake, user_stake: other }, now)
            == claim_payout(ClaimReward { stake: ctx.stake, user_stake: other }, now),
        claimed(ClaimReward { stake: claimed(ctx, now).stake, user_stake: other }, now).stake
            == claimed(ctx, now).stake,
{
    lemma_accrual_at_last_update(claimed(ctx, now).stake);
}

/// Of two stakes with the same reward debt, the larger earns at least as much.
pub proof fn law_reward_grows_with_stake(small: u64, large: u64, rpt: u128, debt: u64)
    requires
        small <= large,
        debt <= rpt,
    ensures
        owed_reward(small, rpt, debt) <= owed_reward(large, rpt, debt),
{
    let d = rpt - debt;
    lemma_mul_inequality(small as int, large as int, d);
    lemma_div_is_ordered(small * d, large * d, REWARD_PRECISION as int);
}


/// The reward only grows with time: bringing a pool up to a later time gives at
/// least the reward per token of an earlier one, and a claim at the later time
/// pays at least what a claim at the earlier time would.
pub proof fn law_reward_grows_with_time(ctx: ClaimReward, early: i64, late: i64)
    requires
        ctx.stake.last_update_time <= early <= late,
        accrual_ok(ctx.stake, early),
        accrual_ok(ctx.stake, late),
    ensures
        rpt_after_accrual(ctx.stake, early) <= rpt_after_accrual(ctx.stake, late),
        claim_reward_safe(ctx, early) && claim_reward_safe(ctx, late) ==> claim_payout(ctx, early)
            <= claim_payout(ctx, late),
{
    let s = ctx.stake;
    lemma_accrual_nonnegative(s, early);
    lemma_accrual_nonnegative(s, late);
    if s.total_staked > 0 {
        let e1 = early - s.last_update_time;
        let e2 = late - s.last_update_time;
        assert(elapsed_ticks(s.last_update_time, early) == e1);
        assert(elapsed_ticks(s.last_update_time, late) == e2);
        let k = s.reward_rate as int * REWARD_PRECISION as int;
        assert(e1 * s.reward_rate * REWARD_PRECISION == e1 * k && e2 * s.reward_rate * REWARD_PRECISION
            == e2 * k) by (nonlinear_arith)
            requires
                k == s.reward_rate as int * REWARD_PRECISION as int,
        ;
        lemma_mul_inequality(e1, e2, k);
        lemma_div_is_ordered(e1 * k, e2 * k, s.total_staked as int);
    }
    if claim_reward_safe(ctx, early) && claim_reward_safe(ctx, late) {
        let d = ctx.user_stake.stake_debt as int;
        let r1 = rpt_after_accrual(s, early) as int;
        let r2 = rpt_after_accrual(s, late) as int;
        lemma_mul_inequality(r1 - d, r2 - d, ctx.user_stake.amount_staked as int);
        assert(ctx.user_stake.amount_staked * (r1 - d) <= ctx.user_stake.amount_staked * (r2 - d))
            by (nonlinear_arith)
            requires
                (r1 - d) * ctx.user_stake.amount_staked <= (r2 - d) * ctx.user_stake.amount_staked,
        ;
        lemma_div_is_ordered(
            ctx.user_stake.amount_staked * (r1 - d),
            ctx.user_stake.amount_staked * (r2 - d),
            REWARD_PRECISION as int,
        );
    }
}

/// The reward owed to each of a sequence of users at reward per token `rpt`, in all.
pub open spec fn sum_owed(users: Seq<UserStake>, rpt: u128) -> int
    decreases users.len(),
{
    if users.len() == 0 {
        0
    } else {
        sum_owed(users.drop_last(), rpt) + owed_reward(
            users.last().amount_staked,
            rpt,
            users.last().stake_debt,
        )
    }
}

/// Rounding each share down pays out no more than rounding the whole down.
proof fn lemma_floor_sum(x: int, y: int, p: int)
    requires
        x >= 0,
        y >= 0,
        p > 0,
    ensures
        x / p + y / p <= (x + y) / p,
{
    lemma_fundamental_div_mod(x, p);
    lemma_fundamental_div_mod(y, p);
    let k = x / p + y / p;
    assert(p * k <= x + y) by (nonlinear_arith)
        requires
            x == p * (x / p) + x % p,
            y == p * (y / p) + y % p,
            x % p >= 0,
            y % p >= 0,
            k == x / p + y / p,
    ;
    lemma_div_is_ordered(p * k, x + y, p);
    lemma_div_multiples_vanish(k, p);
}

/// Users whose debt is `debt` are together owed at most what their summed
/// stake is owed.
proof fn lemma_sum_owed_at_most_pooled(users: Seq<UserStake>, rpt: u128, debt: u64)
    requires
        debt <= rpt,
        forall|i: int| 0 <= i < users.len() ==> #[trigger] users[i].stake_debt == debt,
    ensures
        sum_owed(users, rpt) <= (sum_staked(users) * (rpt - debt)) / (REWARD_PRECISION as int),
    decreases users.len(),
{
    if users.len() > 0 {
        let rest = users.drop_last();
        assert forall|i: int| 0 <= i < rest.len() implies #[trigger] rest[i].stake_debt == debt by {
            assert(rest[i] == users[i]);
        }
        lemma_sum_owed_at_most_pooled(rest, rpt, debt);
        lemma_sum_staked_nonnegative(rest);
        let d = rpt - debt;
        let s = sum_staked(rest);
        let a = users.last().amount_staked as int;
        assert(users.last().stake_debt == debt);
        assert(s * d >= 0 && a * d >= 0) by (nonlinear_arith)
            requires
                s >= 0,
                a >= 0,
                d >= 0,
        ;
        assert((s + a) * d == s * d + a * d) by (nonlinear_arith);
        lemma_floor_sum(s * d, a * d, REWARD_PRECISION as int);
    }
}


/// What each of a sequence of users would be paid by a claim against pool `s` at `now`, in all.
pub open spec fn sum_claim_payouts(s: AdminStake, users: Seq<UserStake>, now: i64) -> int
    decreases users.len(),
{
    if users.len() == 0 {
        0
    } else {
        sum_claim_payouts(s, users.drop_last(), now) + claim_payout(
            ClaimReward { stake: s, user_stake: users.last() },
            now,
        )
    }
}

/// Users with nothing pending are paid by a claim exactly what they are owed.
proof fn lemma_payouts_are_owed(s: AdminStake, users: Seq<UserStake>, now: i64)
    requires
        forall|j: int| 0 <= j < users.len() ==> #[trigger] users[j].pending_reward == 0,
        forall|j: int|
            0 <= j < users.len() ==> claim_reward_safe(
                ClaimReward { stake: s, user_stake: #[trigger] users[j] },
                now,
            ),
    ensures
        sum_claim_payouts(s, users, now) == sum_owed(users, rpt_after_accrual(s, now)),
    decreases users.len(),
{
    if users.len() > 0 {
        let rest = users.drop_last();
        assert forall|j: int| 0 <= j < rest.len() implies #[trigger] rest[j].pending_reward == 0
            && claim_reward_safe(ClaimReward { stake: s, user_stake: rest[j] }, now) by {
            assert(rest[j] == users[j]);
            assert(claim_reward_safe(ClaimReward { stake: s, user_stake: users[j] }, now));
        }
        lemma_payouts_are_owed(s, rest, now);
        let last = users.len() - 1;
        assert(users.last() == users[last]);
        assert(claim_reward_safe(ClaimReward { stake: s, user_stake: users[last] }, now));
    }
}

/// The pool never pays more reward than it emits: when the pool total is the
/// sum of its users' stakes, and every user's debt is up to date with nothing
/// pending, the claims of all of them at `now`, in any order, pay together at
/// most the reward rate times the time since the last update.
pub proof fn law_claims_never_exceed_emission(s: AdminStake, users: Seq<UserStake>, now: i64)
    requires
        accrual_ok(s, now),
        s.last_update_time <= now,
        s.total_staked == sum_staked(users),
        forall|j: int| 0 <= j < users.len() ==> #[trigger] users[j].stake_debt
            == s.reward_per_token_stored,
        forall|j: int| 0 <= j < users.len() ==> #[trigger] users[j].pending_reward == 0,
        forall|j: int|
            0 <= j < users.len() ==> claim_reward_safe(
                ClaimReward { stake: s, user_stake: #[trigger] users[j] },
                now,
            ),
    ensures
        sum_claim_payouts(s, users, now) <= (now - s.last_update_time) * s.reward_rate,
{
    lemma_payouts_are_owed(s, users, now);
    let rpt = rpt_after_accrual(s, now);
    let t = s.total_staked as int;
    let e = now - s.last_update_time;
    let r = s.reward_rate as int;
    let p = REWARD_PRECISION as int;
    lemma_accrual_nonnegative(s, now);
    if users.len() == 0 {
        return;
    }
    let debt = users[0].stake_debt;
    assert(debt == s.reward_per_token_stored);
    lemma_sum_owed_at_most_pooled(users, rpt, debt);
    assert(elapsed_ticks(s.last_update_time, now) == e);
    assert(e * r >= 0) by (nonlinear_arith)
        requires
            e >= 0,
            r >= 0,
    ;
    if t == 0 {
        assert(rpt - debt == 0);
        assert(t * (rpt - debt) == 0) by (nonlinear_arith)
            requires
                t == 0,
        ;
    } else {
        let x = e * r * p;
        let q = x / t;
        assert(x >= 0) by (nonlinear_arith)
            requires
                e * r >= 0,
                p > 0,
                x == e * r * p,
        ;
        lemma_fundamental_div_mod(x, t);
        assert(t * q <= x);
        assert(rpt - debt == q);
        lemma_div_is_ordered(t * q, x, p);
        assert(x == p * (e * r)) by (nonlinear_arith)
            requires
                x == e * r * p,
        ;
        lemma_div_multiples_vanish(e * r, p);
    }
}

/// A claim pays the reward already pending together with everything the stake
/// has earned since its debt was recorded: its amount times the growth of the
/// reward per token, scaled down by the precision. It never pays less than the
/// earned part, brings the pool's reward per token up to `now` by
/// `elapsed * rate * precision / total`, and leaves the user's debt at that new
/// value with nothing pending.
pub proof fn law_claim_pays_pending_and_earned(ctx: ClaimReward, now: i64)
    requires
        claim_reward_safe(ctx, now),
    ensures
        claimed(ctx, now).stake.reward_per_token_stored == ctx.stake.reward_per_token_stored + (if ctx.stake.total_staked > 0 { ((((now - ctx.stake.last_update_time) as i64) as u128) * ctx.stake.reward_rate * REWARD_PRECISION) / (ctx.stake.total_staked as int) } else { 0 }),
        claim_payout(ctx, now) == ctx.user_stake.pending_reward + (ctx.user_stake.amount_staked * (
        claimed(ctx, now).stake.reward_per_token_stored - ctx.user_stake.stake_debt)) / (
        REWARD_PRECISION as int),
        claim_payout(ctx, now) >= (ctx.user_stake.amount_staked * (
        claimed(ctx, now).stake.reward_per_token_stored - ctx.user_stake.stake_debt)) / (
        REWARD_PRECISION as int),
        claimed(ctx, now).user_stake.stake_debt == claimed(ctx, now).stake.reward_per_token_stored,
        claimed(ctx, now).user_stake.pending_reward == 0,
{
}

/// Staking settles what the user's earlier stake has earned into its pending
/// reward and restarts its debt at the pool's new reward per token, so a claim
/// at the same time right after the stake pays exactly the pending reward.
pub proof fn law_stake_settles_and_restarts_debt(
    ctx: StakeToken,
    amount: u64,
    stake_time: i64,
    now: i64,
)
    requires
        stake_token_safe(ctx, stake_time, now),
    ensures
        staked(ctx, amount, stake_time, now).stake.reward_per_token_stored == ctx.stake.reward_per_token_stored + (if ctx.stake.total_staked > 0 { ((((now - ctx.stake.last_update_time) as i64) as u128) * ctx.stake.reward_rate * REWARD_PRECISION) / (ctx.stake.total_staked as int) } else { 0 }),
        staked(ctx, amount, stake_time, now).user_stake.stake_debt == staked(
            ctx,
            amount,
            stake_time,
            now,
        ).stake.reward_per_token_stored,
        staked(ctx, amount, stake_time, now).user_stake.pending_reward
            == ctx.user_stake.pending_reward + (ctx.user_stake.amount_staked * (staked(
            ctx,
            amount,
            stake_time,
            now,
        ).stake.reward_per_token_stored - ctx.user_stake.stake_debt)) / (REWARD_PRECISION as int),
        claim_reward_safe(
            ClaimReward {
                stake: staked(ctx, amount, stake_time, now).stake,
                user_stake: staked(ctx, amount, stake_time, now).user_stake,
            },
            now,
        ),
        claim_payout(
            ClaimReward {
                stake: staked(ctx, amount, stake_time, now).stake,
                user_stake: staked(ctx, amount, stake_time, now).user_stake,
            },
            now,
        ) == staked(ctx, amount, stake_time, now).user_stake.pending_reward,
{
    let after = staked(ctx, amount, stake_time, now);
    lemma_accrual_at_last_update(after.stake);
    lemma_nothing_owed_at_debt(after.user_stake.amount_staked, after.user_stake.stake_debt);
    assert(after.user_stake.stake_debt as u128 == after.stake.reward_per_token_stored);
}

/// Unstaking after the lock settles what the stake has earned into the pending
/// reward, adding to what was pending, refunds the whole stake and restarts the
/// debt at the pool's new reward per token.
pub proof fn law_unstake_settles_and_refunds(ctx: UnstakeToken, now: i64)
    requires
        unstake_token_safe(ctx, now),
        unstake_ready(ctx, now),
    ensures
        unstaked(ctx, now).stake.reward_per_token_stored == ctx.stake.reward_per_token_stored + (if ctx.stake.total_staked > 0 { ((((now - ctx.stake.last_update_time) as i64) as u128) * ctx.stake.reward_rate * REWARD_PRECISION) / (ctx.stake.total_staked as int) } else { 0 }),
        unstaked(ctx, now).user_stake.pending_reward == ctx.user_stake.pending_reward + (
        ctx.user_stake.amount_staked * (unstaked(ctx, now).stake.reward_per_token_stored
            - ctx.user_stake.stake_debt)) / (REWARD_PRECISION as int),
        unstaked(ctx, now).user_stake.stake_debt == unstaked(ctx, now).stake.reward_per_token_stored,
        unstaked(ctx, now).user_stake.amount_staked == 0,
        unstake_outcome(ctx, now) == Ok::<TokenTransfer, ErrorCode>(
            TokenTransfer { route: TransferRoute::VaultToUser, amount: ctx.user_stake.amount_staked },
        ),
{
}

/// Creating a pool records exactly the given reward rate, the administrator,
/// the staking and reward mints, `now` as the last update and a reward per
/// token of zero; the total staked stays what the new account holds.
pub proof fn law_create_stake_records_its_arguments(
    ctx: CreateStake,
    reward_mint: Pubkey,
    reward_rate: u64,
    now: i64,
)
    ensures
        initialized_pool(ctx, reward_mint, reward_rate, now).reward_rate == reward_rate,
        initialized_pool(ctx, reward_mint, reward_rate, now).admin == ctx.admin,
        initialized_pool(ctx, reward_mint, reward_rate, now).staking_mint == ctx.staking_mint,
        initialized_pool(ctx, reward_mint, reward_rate, now).reward_mint == reward_mint,
        initialized_pool(ctx, reward_mint, reward_rate, now).last_update_time == now,
        initialized_pool(ctx, reward_mint, reward_rate, now).reward_per_token_stored == 0,
        initialized_pool(ctx, reward_mint, reward_rate, now).total_staked == ctx.stake.total_staked,
{
}

/// Minting `amount` whole tokens mints `amount * 10^decimals` base units, so
/// one more decimal mints ten times as many.
pub proof fn law_mint_scales_by_decimals(amount: u64, decimals: u8)
    ensures
        minted_units(amount, decimals) == amount * pow(10, decimals as nat),
        decimals < u8::MAX ==> minted_units(amount, (decimals + 1) as u8) == 10 * minted_units(
            amount,
            decimals,
        ),
{
    if decimals < u8::MAX {
        let next = (decimals + 1) as u8;
        assert(pow(10, next as nat) == 10 * pow(10, decimals as nat)) by {
            vstd::arithmetic::power::lemma_pow_adds(10, decimals as nat, 1);
            vstd::arithmetic::power::lemma_pow1(10);
        }
        let p = pow(10, decimals as nat);
        assert(amount * (10 * p) == 10 * (amount * p)) by (nonlinear_arith);
    }
}

} // verus!
