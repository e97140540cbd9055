use vstd::prelude::*;

use crate::pubkey::Pubkey;

verus! {

/// Emitted when a user places a stake.
#[derive(Clone, Copy, Debug)]
pub struct StakePlaced {
    pub user: Pubkey,
    pub stake_amount: u64,
    pub stake_time: i64,
}

} // verus!
