use vstd::prelude::*;

verus! {

/// Errors the staking program reports to the client.
#[derive(Clone, Copy, Debug, PartialEq, Eq, Structural)]
pub enum ErrorCode {
    InvalidStakingMint,
    InvalidStake,
    InvalidUserAta,
    StakeTimeNotCompleted,
    AmountGreaterThanStakedAmount,
}

impl ErrorCode {
    /// The human-readable message attached to each error.
    pub fn message(&self) -> (m: &'static str)
        ensures
            *self == ErrorCode::InvalidStakingMint ==> m@ == "Invalid Staking Mint"@,
            *self == ErrorCode::InvalidStake ==> m@ == "Invalid Stake"@,
            *self == ErrorCode::InvalidUserAta ==> m@ == "Invalid User Ata"@,
            *self == ErrorCode::StakeTimeNotCompleted ==> m@ == "Stake time not completed yet."@,
            *self == ErrorCode::AmountGreaterThanStakedAmount
                ==> m@ == "The amount to unstake is greater than staked amount."@,
    {
        match self {
            ErrorCode::InvalidStakingMint => "Invalid Staking Mint",
            ErrorCode::InvalidStake => "Invalid Stake",
            ErrorCode::InvalidUserAta => "Invalid User Ata",
            ErrorCode::StakeTimeNotCompleted => "Stake time not completed yet.",
            ErrorCode::AmountGreaterThanStakedAmount => "The amount to unstake is greater than staked amount.",
        }
    }
}

} // verus!
