use vstd::prelude::*;

use crate::pubkey::Pubkey;

verus! {

/// What the program records for one user's stake in one pool.
#[derive(Clone, Copy, Debug)]
pub struct UserStake {
    /// The staking user.
    pub user: Pubkey,
    /// The address of the pool account.
    pub stake: Pubkey,
    /// How long the latest stake is locked for.
    pub stake_time: i64,
    pub amount_staked: u64,
    /// The pool's reward per token when the user last settled; an instruction that
    /// would raise it beyond `u64` aborts.
    pub stake_debt: u64,
    /// Reward earned and recorded, not yet paid out.
    pub pending_reward: u64,
    /// When the latest stake was placed.
    pub start_time: i64,
    /// When the lock of the latest stake runs out.
    pub end_time: i64,
    pub vault_bump: u8,
}

/// The configuration and running totals of one staking pool.
#[derive(Clone, Copy, Debug)]
pub struct AdminStake {
    pub admin: Pubkey,
    /// The mint of the tokens the pool accepts.
    pub staking_mint: Pubkey,
    /// The mint of the tokens the pool pays out as reward.
    pub reward_mint: Pubkey,
    /// Reward per second, shared among all staked tokens.
    pub reward_rate: u64,
    /// The tokens staked in the pool, in all.
    pub total_staked: u64,
    /// When the reward per token was last brought up to date.
    pub last_update_time: i64,
    /// The reward accrued per staked token since the pool was created.
    pub reward_per_token_stored: u128,
    pub vault_bump: u8,
}

/// An address of 32 zero bytes.
pub open spec fn is_zero_key(k: Pubkey) -> bool {
    k@ == Seq::new(32, |i: int| 0u8)
}

/// A user stake as a freshly created account holds it: every field zero.
pub open spec fn is_zeroed_user_stake(u: UserStake) -> bool {
    &&& is_zero_key(u.user)
    &&& is_zero_key(u.stake)
    &&& u.stake_time == 0
    &&& u.amount_staked == 0
    &&& u.stake_debt == 0
    &&& u.pending_reward == 0
    &&& u.start_time == 0
    &&& u.end_time == 0
    &&& u.vault_bump == 0
}

/// A pool as a freshly created account holds it: every field zero.
pub open spec fn is_zeroed_admin_stake(s: AdminStake) -> bool {
    &&& is_zero_key(s.admin)
    &&& is_zero_key(s.staking_mint)
    &&& is_zero_key(s.reward_mint)
    &&& s.reward_rate == 0
    &&& s.total_staked == 0
    &&& s.last_update_time == 0
    &&& s.reward_per_token_stored == 0
    &&& s.vault_bump == 0
}

impl Default for UserStake {
    fn default() -> (u: UserStake)
        ensures
            is_zeroed_user_stake(u),
    {
        UserStake {
            user: Pubkey::zeroed(),
            stake: Pubkey::zeroed(),
            stake_time: 0,
            amount_staked: 0,
            stake_debt: 0,
            pending_reward: 0,
            start_time: 0,
            end_time: 0,
            vault_bump: 0,
        }
    }
}

impl Default for AdminStake {
    fn default() -> (s: AdminStake)
        ensures
            is_zeroed_admin_stake(s),
    {
        AdminStake {
            admin: Pubkey::zeroed(),
            staking_mint: Pubkey::zeroed(),
            reward_mint: Pubkey::zeroed(),
            reward_rate: 0,
            total_staked: 0,
            last_update_time: 0,
            reward_per_token_stored: 0,
            vault_bump: 0,
        }
    }
}

} // verus!
