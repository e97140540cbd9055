//! Verified core of a token staking program: stake accounts, reward
//! accounting, and the decisions each instruction makes. Reading the clock,
//! token transfers and account validation are performed by the caller.

pub mod error;
pub mod event;
pub mod instructions;
pub mod laws;
pub mod pubkey;
pub mod rewards;
pub mod state;

pub use error::ErrorCode;
pub use event::StakePlaced;
pub use instructions::claim_reward::{claim_reward, claim_reward_is_safe, ClaimReward};
pub use instructions::create_stake::{create_stake, initialize_stake, CreateStake};
pub use instructions::mint_token::{decimal_scale, mint_token, mint_token_is_safe, MintToken};
pub use instructions::mock_token::{
    create_token_mint, Collection, CollectionDetails, CreateTokenMint, Creator, TokenMetadata, UseMethod,
    Uses,
};
pub use instructions::stake_token::{stake_token, stake_token_is_safe, StakeToken};
pub use instructions::unstake_token::{unstake_token, unstake_token_is_safe, UnstakeToken};
pub use instructions::{TokenTransfer, TransferRoute};
pub use pubkey::Pubkey;
pub use rewards::REWARD_PRECISION;
pub use state::{AdminStake, UserStake};
