//! The program's instructions: for each, the accounts it reads and writes and
//! the decision it makes.

pub mod claim_reward;
pub mod create_stake;
pub mod mint_token;
pub mod mock_token;
pub mod stake_token;
pub mod unstake_token;

use vstd::prelude::*;

verus! {

/// Which way a token transfer moves between the user's token account and the pool vault.
#[derive(Clone, Copy, Debug, PartialEq, Eq, Structural)]
pub enum TransferRoute {
    /// From the user's token account into the vault, authorised by the user.
    UserToVault,
    /// From the vault to the user's token account, signed by the vault authority.
    VaultToUser,
}

/// A token transfer that an instruction asks the token program to perform.
#[derive(Clone, Copy, Debug, PartialEq, Eq, Structural)]
pub struct TokenTransfer {
    pub route: TransferRoute,
    pub amount: u64,
}

} // verus!
