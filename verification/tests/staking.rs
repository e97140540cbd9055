use std::str::FromStr;

use stake::{
    claim_reward, claim_reward_is_safe, create_stake, create_token_mint, decimal_scale, initialize_stake,
    mint_token, mint_token_is_safe, stake_token, stake_token_is_safe, unstake_token,
    unstake_token_is_safe, AdminStake, ClaimReward, CreateStake, CreateTokenMint, ErrorCode,
    MintToken, Pubkey, StakeToken, TokenTransfer, TransferRoute, UnstakeToken, UserStake,
    REWARD_PRECISION,
};

const STAKE_TOKEN_MINT: &str = "57dQxpHFknJs96w1Z1DTHi6QgxmR9i7XdhxKuZp8xtzQ";

fn key(b: u8) -> Pubkey {
    Pubkey::new_from_array([b; 32])
}

fn expected_mint() -> Pubkey {
    let k = anchor_lang::prelude::Pubkey::from_str(STAKE_TOKEN_MINT).unwrap();
    Pubkey::new_from_array(k.to_bytes())
}

fn pool(rate: u64, total: u64, last: i64, rpt: u128) -> AdminStake {
    let mut s = AdminStake::default();
    s.admin = key(1);
    s.staking_mint = key(2);
    s.reward_mint = key(2);
    s.reward_rate = rate;
    s.total_staked = total;
    s.last_update_time = last;
    s.reward_per_token_stored = rpt;
    s.vault_bump = 254;
    s
}

fn stake_ctx(stake: AdminStake, user_stake: UserStake) -> StakeToken {
    StakeToken { user: key(7), stake_key: key(9), stake, user_stake, vault_bump: 253 }
}

#[test]
fn error_messages() {
    assert_eq!(ErrorCode::InvalidStakingMint.message(), "Invalid Staking Mint");
    assert_eq!(ErrorCode::InvalidStake.message(), "Invalid Stake");
    assert_eq!(ErrorCode::InvalidUserAta.message(), "Invalid User Ata");
    assert_eq!(ErrorCode::StakeTimeNotCompleted.message(), "Stake time not completed yet.");
    assert_eq!(
        ErrorCode::AmountGreaterThanStakedAmount.message(),
        "The amount to unstake is greater than staked amount."
    );
}

#[test]
fn key_equality() {
    assert!(key(3).key_eq(&key(3)));
    assert!(!key(3).key_eq(&key(4)));
    let mut bytes = [3u8; 32];
    bytes[31] = 4;
    assert!(!key(3).key_eq(&Pubkey::new_from_array(bytes)));
    assert_eq!(Pubkey::zeroed().bytes, [0u8; 32]);
}

#[test]
fn create_stake_accepts_the_program_mint() {
    let mint = expected_mint();
    assert_ne!(mint.bytes, [0u8; 32]);
    let mut ctx = CreateStake { admin: key(1), staking_mint: mint, stake: AdminStake::default(), vault_bump: 250 };
    assert_eq!(create_stake(&mut ctx, 42, 1_700_000_000), Ok(()));
    assert_eq!(ctx.stake.admin.bytes, [1u8; 32]);
    assert_eq!(ctx.stake.staking_mint.bytes, mint.bytes);
    assert_eq!(ctx.stake.reward_mint.bytes, mint.bytes);
    assert_eq!(ctx.stake.reward_rate, 42);
    assert_eq!(ctx.stake.total_staked, 0);
    assert_eq!(ctx.stake.last_update_time, 1_700_000_000);
    assert_eq!(ctx.stake.reward_per_token_stored, 0);
    assert_eq!(ctx.stake.vault_bump, 250);
}

#[test]
fn create_stake_refuses_another_mint() {
    let mut ctx = CreateStake { admin: key(1), staking_mint: key(5), stake: AdminStake::default(), vault_bump: 250 };
    assert_eq!(create_stake(&mut ctx, 42, 1_700_000_000), Err(ErrorCode::InvalidStakingMint));
    assert_eq!(ctx.stake.reward_rate, 0);
    assert_eq!(ctx.stake.admin.bytes, [0u8; 32]);
}

#[test]
fn initialize_stake_checks_the_given_mint() {
    let mut ctx = CreateStake { admin: key(1), staking_mint: key(5), stake: AdminStake::default(), vault_bump: 9 };
    assert_eq!(initialize_stake(&mut ctx, key(6), 3, 100), Err(ErrorCode::InvalidStakingMint));
    assert_eq!(ctx.stake.last_update_time, 0);
    assert_eq!(initialize_stake(&mut ctx, key(5), 3, 100), Ok(()));
    assert_eq!(ctx.stake.reward_mint.bytes, [5u8; 32]);
    assert_eq!(ctx.stake.reward_rate, 3);
    assert_eq!(ctx.stake.last_update_time, 100);
    assert_eq!(ctx.stake.vault_bump, 9);
}

#[test]
fn first_stake_into_empty_pool() {
    let mut ctx = stake_ctx(pool(10, 0, 1000, 0), UserStake::default());
    assert!(stake_token_is_safe(&ctx, 60, 1010));
    let (deposit, event) = stake_token(&mut ctx, 500, 60, 1010);
    assert_eq!(deposit, TokenTransfer { route: TransferRoute::UserToVault, amount: 500 });
    assert_eq!(event.user.bytes, [7u8; 32]);
    assert_eq!(event.stake_amount, 500);
    assert_eq!(event.stake_time, 60);
    assert_eq!(ctx.stake.total_staked, 500);
    assert_eq!(ctx.stake.reward_per_token_stored, 0);
    assert_eq!(ctx.stake.last_update_time, 1010);
    let u = ctx.user_stake;
    assert_eq!(u.user.bytes, [7u8; 32]);
    assert_eq!(u.stake.bytes, [9u8; 32]);
    assert_eq!(u.amount_staked, 500);
    assert_eq!(u.stake_debt, 0);
    assert_eq!(u.pending_reward, 0);
    assert_eq!(u.stake_time, 60);
    assert_eq!(u.start_time, 1010);
    assert_eq!(u.end_time, 1070);
    assert_eq!(u.vault_bump, 253);
}

#[test]
fn stake_accrues_scaled_reward() {
    // 20 seconds * rate 30 * 10^12 / 200 staked = 3 * 10^12 per token
    let mut ctx = stake_ctx(pool(30, 200, 1000, 5), UserStake::default());
    let _ = stake_token(&mut ctx, 100, 10, 1020);
    assert_eq!(ctx.stake.reward_per_token_stored, 3 * REWARD_PRECISION + 5);
    assert_eq!(ctx.user_stake.stake_debt, (3 * REWARD_PRECISION + 5) as u64);
    assert_eq!(ctx.stake.total_staked, 300);
}

#[test]
fn stake_example_from_an_empty_record() {
    let mut ctx = stake_ctx(pool(10, 100, 0, 0), UserStake::default());
    let _ = stake_token(&mut ctx, 20, 30, 50);
    assert_eq!(ctx.stake.reward_per_token_stored, 5_000_000_000_000);
    assert_eq!(ctx.stake.total_staked, 120);
    assert_eq!(ctx.stake.last_update_time, 50);
    assert_eq!(ctx.user_stake.amount_staked, 20);
    assert_eq!(ctx.user_stake.stake_debt, 5_000_000_000_000);
    assert_eq!(ctx.user_stake.start_time, 50);
    assert_eq!(ctx.user_stake.end_time, 80);
}

#[test]
fn stake_top_up_keeps_earned_reward() {
    let mut user = UserStake::default();
    user.amount_staked = 100;
    user.pending_reward = 3;
    let mut ctx = stake_ctx(pool(10, 100, 0, 0), user);
    let _ = stake_token(&mut ctx, 50, 5, 10);
    // 10 s * 10 * 10^12 / 100 = 10^12 per token; 100 tokens earned 100
    assert_eq!(ctx.user_stake.pending_reward, 103);
    assert_eq!(ctx.user_stake.stake_debt, REWARD_PRECISION as u64);
    assert_eq!(ctx.user_stake.amount_staked, 150);
    assert_eq!(ctx.stake.total_staked, 150);
}

#[test]
fn reward_per_token_beyond_debt_range_is_refused() {
    let mut user = UserStake::default();
    user.stake_debt = u64::MAX;
    let ctx = ClaimReward { stake: pool(1, 1, 0, u64::MAX as u128), user_stake: user };
    assert!(claim_reward_is_safe(&ctx, 0));
    assert!(!claim_reward_is_safe(&ctx, 1));
}

#[test]
fn stake_saturates_totals() {
    let mut user = UserStake::default();
    user.amount_staked = u64::MAX - 1;
    let mut ctx = stake_ctx(pool(0, u64::MAX - 1, 1000, 0), user);
    let _ = stake_token(&mut ctx, 10, 0, 1000);
    assert_eq!(ctx.stake.total_staked, u64::MAX);
    assert_eq!(ctx.user_stake.amount_staked, u64::MAX);
}

#[test]
fn stake_overflow_is_detected() {
    let ctx = stake_ctx(pool(10, 1, 0, u128::MAX), UserStake::default());
    assert!(!stake_token_is_safe(&ctx, 0, 5));
    let ctx = stake_ctx(pool(10, 1, 0, 0), UserStake::default());
    assert!(!stake_token_is_safe(&ctx, i64::MAX, 5));
    let ctx = stake_ctx(pool(10, 1, i64::MIN, 0), UserStake::default());
    assert!(!stake_token_is_safe(&ctx, 0, 1));
}

#[test]
fn unstake_refused_while_locked() {
    let mut user = UserStake::default();
    user.amount_staked = 100;
    user.end_time = 2000;
    let mut ctx = UnstakeToken { stake: pool(10, 100, 1000, 0), user_stake: user };
    assert!(unstake_token_is_safe(&ctx, 1999));
    assert_eq!(unstake_token(&mut ctx, 1999), Err(ErrorCode::StakeTimeNotCompleted));
    assert_eq!(ctx.stake.total_staked, 100);
    assert_eq!(ctx.stake.last_update_time, 1000);
    assert_eq!(ctx.user_stake.amount_staked, 100);
}

#[test]
fn unstake_refunds_and_records_pending_reward() {
    let mut user = UserStake::default();
    user.amount_staked = 100;
    user.end_time = 2000;
    user.stake_debt = 0;
    let mut ctx = UnstakeToken { stake: pool(10, 400, 1000, 0), user_stake: user };
    assert!(unstake_token_is_safe(&ctx, 2000));
    let r = unstake_token(&mut ctx, 2000);
    assert_eq!(r, Ok(TokenTransfer { route: TransferRoute::VaultToUser, amount: 100 }));
    // 1000 s * 10 * 10^12 / 400 = 25 * 10^12 per token
    assert_eq!(ctx.stake.reward_per_token_stored, 25 * REWARD_PRECISION);
    assert_eq!(ctx.stake.total_staked, 300);
    assert_eq!(ctx.stake.last_update_time, 2000);
    assert_eq!(ctx.user_stake.pending_reward, 2500);
    assert_eq!(ctx.user_stake.amount_staked, 0);
    assert_eq!(ctx.user_stake.stake_debt, (25 * REWARD_PRECISION) as u64);
}

#[test]
fn unstake_adds_to_pending_reward_and_claim_pays_it() {
    let mut user = UserStake::default();
    user.amount_staked = 100;
    user.end_time = 2000;
    user.pending_reward = 7;
    let mut ctx = UnstakeToken { stake: pool(10, 400, 1000, 0), user_stake: user };
    let _ = unstake_token(&mut ctx, 2000).unwrap();
    assert_eq!(ctx.user_stake.pending_reward, 2507);
    let mut claim = ClaimReward { stake: ctx.stake, user_stake: ctx.user_stake };
    let paid = claim_reward(&mut claim, 2000);
    assert_eq!(paid, TokenTransfer { route: TransferRoute::VaultToUser, amount: 2507 });
    assert_eq!(claim.user_stake.pending_reward, 0);
    assert_eq!(claim_reward(&mut claim, 2000).amount, 0);
}

#[test]
fn unstake_overflow_is_detected() {
    let mut user = UserStake::default();
    user.amount_staked = 100;
    user.stake_debt = 50;
    let ctx = UnstakeToken { stake: pool(0, 100, 1000, 10), user_stake: user };
    // the reward per token is below the user's debt
    assert!(!unstake_token_is_safe(&ctx, 1000));
}

#[test]
fn claim_pays_accrued_reward() {
    let mut user = UserStake::default();
    user.amount_staked = 50;
    user.stake_debt = 1;
    let mut ctx = ClaimReward { stake: pool(10, 150, 1010, 1), user_stake: user };
    assert!(claim_reward_is_safe(&ctx, 1025));
    let t = claim_reward(&mut ctx, 1025);
    assert_eq!(t, TokenTransfer { route: TransferRoute::VaultToUser, amount: 50 });
    assert_eq!(ctx.stake.reward_per_token_stored, REWARD_PRECISION + 1);
    assert_eq!(ctx.stake.last_update_time, 1025);
    assert_eq!(ctx.stake.total_staked, 150);
    assert_eq!(ctx.user_stake.stake_debt, (REWARD_PRECISION + 1) as u64);
    assert_eq!(ctx.user_stake.pending_reward, 0);
    assert_eq!(ctx.user_stake.amount_staked, 50);
}

#[test]
fn claim_from_empty_pool_pays_nothing() {
    let mut ctx = ClaimReward { stake: pool(10, 0, 0, 0), user_stake: UserStake::default() };
    let t = claim_reward(&mut ctx, 500);
    assert_eq!(t.amount, 0);
    assert_eq!(ctx.stake.reward_per_token_stored, 0);
    assert_eq!(ctx.stake.last_update_time, 500);
}

#[test]
fn second_claim_pays_nothing() {
    let mut user = UserStake::default();
    user.amount_staked = 70;
    let mut ctx = ClaimReward { stake: pool(9, 70, 0, 0), user_stake: user };
    let first = claim_reward(&mut ctx, 100);
    assert_eq!(first.amount, 899);
    let after_first = (ctx.stake.reward_per_token_stored, ctx.user_stake.stake_debt);
    let second = claim_reward(&mut ctx, 100);
    assert_eq!(second.amount, 0);
    assert_eq!((ctx.stake.reward_per_token_stored, ctx.user_stake.stake_debt), after_first);
}

#[test]
fn sole_staker_earns_at_most_rate_times_time() {
    let mut user = UserStake::default();
    user.amount_staked = 7;
    let mut ctx = ClaimReward { stake: pool(3, 7, 0, 0), user_stake: user };
    let t = claim_reward(&mut ctx, 11);
    assert!(t.amount <= 33);
    assert_eq!(t.amount, 32);
}

#[test]
fn larger_stake_earns_more() {
    let run = |amount: u64| {
        let mut user = UserStake::default();
        user.amount_staked = amount;
        let mut ctx = ClaimReward { stake: pool(5, 1000, 0, 0), user_stake: user };
        claim_reward(&mut ctx, 100).amount
    };
    assert_eq!(run(100), 50);
    assert_eq!(run(300), 150);
    assert!(run(299) <= run(300));
}

#[test]
fn stake_then_unstake_returns_everything() {
    let mut ctx = stake_ctx(pool(4, 100, 0, 0), UserStake::default());
    let _ = stake_token(&mut ctx, 50, 30, 10);
    let mut u = UnstakeToken { stake: ctx.stake, user_stake: ctx.user_stake };
    assert_eq!(unstake_token(&mut u, 39), Err(ErrorCode::StakeTimeNotCompleted));
    let refund = unstake_token(&mut u, 40).unwrap();
    assert_eq!(refund.amount, 50);
    assert_eq!(refund.route, TransferRoute::VaultToUser);
    assert_eq!(u.stake.total_staked, 100);
    assert_eq!(u.user_stake.amount_staked, 0);
}

#[test]
fn pool_total_tracks_user_stakes() {
    let mut stake = pool(1, 0, 0, 0);
    let mut alice = UserStake::default();
    let mut bob = UserStake::default();
    let mut a = stake_ctx(stake, alice);
    let _ = stake_token(&mut a, 30, 0, 1);
    stake = a.stake;
    alice = a.user_stake;
    let mut b = stake_ctx(stake, bob);
    let _ = stake_token(&mut b, 12, 0, 2);
    stake = b.stake;
    bob = b.user_stake;
    assert_eq!(stake.total_staked, alice.amount_staked + bob.amount_staked);
    let mut u = UnstakeToken { stake, user_stake: alice };
    let _ = unstake_token(&mut u, 3).unwrap();
    assert_eq!(u.stake.total_staked, bob.amount_staked);
}

#[test]
fn negative_clock_step_overflows() {
    // the clock went back by one second: the difference reads as 2^128 - 1
    let ctx = stake_ctx(pool(1, u64::MAX, 10, 0), UserStake::default());
    assert!(!stake_token_is_safe(&ctx, 0, 9));
    // with no reward rate the wrapped difference does no harm
    let mut ctx = stake_ctx(pool(0, u64::MAX, 10, 0), UserStake::default());
    assert!(stake_token_is_safe(&ctx, 0, 9));
    let _ = stake_token(&mut ctx, 0, 0, 9);
    assert_eq!(ctx.stake.reward_per_token_stored, 0);
    assert_eq!(ctx.stake.last_update_time, 9);
}

#[test]
fn mint_amounts() {
    assert_eq!(mint_token(&MintToken { mint_decimals: 6 }, 5), 5_000_000);
    assert_eq!(mint_token(&MintToken { mint_decimals: 0 }, 5), 5);
    assert_eq!(mint_token(&MintToken { mint_decimals: 19 }, 1), 10_000_000_000_000_000_000);
    assert!(mint_token_is_safe(&MintToken { mint_decimals: 9 }, 1000));
    assert!(!mint_token_is_safe(&MintToken { mint_decimals: 20 }, 0));
    assert!(!mint_token_is_safe(&MintToken { mint_decimals: 19 }, 2));
    assert_eq!(decimal_scale(3), Some(1000));
    assert_eq!(decimal_scale(20), None);
}

#[test]
fn token_metadata_record() {
    let ctx = CreateTokenMint { payer: key(4), mint_account: key(5) };
    let m = create_token_mint(&ctx, 9, "Gold".to_string(), "GLD".to_string(), "https://example.com/gold.json".to_string());
    assert_eq!(m.name, "Gold");
    assert_eq!(m.symbol, "GLD");
    assert_eq!(m.uri, "https://example.com/gold.json");
    assert_eq!(m.seller_fee_basis_points, 0);
    assert!(!m.is_mutable);
    assert!(m.update_authority_is_signer);
    assert!(m.creators.is_none());
    assert!(m.collection.is_none());
    assert!(m.uses.is_none());
    assert!(m.collection_details.is_none());
    assert_eq!(m.mint.bytes, [5u8; 32]);
    assert_eq!(m.mint_authority.bytes, [4u8; 32]);
    assert_eq!(m.update_authority.bytes, [4u8; 32]);
    assert_eq!(m.payer.bytes, [4u8; 32]);
}

#[test]
fn rewards_owed_never_exceed_emission() {
    let stake = pool(7, 30, 0, 0);
    let claim = |amount: u64| {
        let mut user = UserStake::default();
        user.amount_staked = amount;
        let mut ctx = ClaimReward { stake, user_stake: user };
        claim_reward(&mut ctx, 13).amount
    };
    let paid = claim(10) + claim(11) + claim(9);
    assert!(paid <= 13 * 7);
    assert_eq!(paid, 90);
}
