use vstd::prelude::*;

use vstd::arithmetic::power::{lemma_pow_increases, pow};

verus! {

/// The accounts of the instruction that mints tokens, as the program reads them.
#[derive(Clone, Copy, Debug)]
pub struct MintToken {
    /// The decimals of the mint.
    pub mint_decimals: u8,
}

/// The number of base units minted for `amount` whole tokens of a mint with `decimals`.
pub open spec fn minted_units(amount: u64, decimals: u8) -> int {
    amount * pow(10, decimals as nat)
}

/// Minting `amount` whole tokens does not overflow.
pub open spec fn mint_token_safe(ctx: MintToken, amount: u64) -> bool {
    &&& pow(10, ctx.mint_decimals as nat) <= u64::MAX
    &&& minted_units(amount, ctx.mint_decimals) <= u64::MAX
}

/// `10^decimals`, or `None` where it does not fit in a `u64`.
pub fn decimal_scale(decimals: u8) -> (scale: Option<u64>)
    ensures
        scale matches Some(v) ==> v == pow(10, decimals as nat),
        scale is None <==> pow(10, decimals as nat) > u64::MAX,
{
    let target: u32 = decimals as u32;
    let mut scale: u64 = 1;
    let mut i: u32 = 0;
    proof {
        reveal(pow);
    }
    while i < target
        invariant
            i <= target,
            target == decimals,
            scale == pow(10, i as nat),
        decreases target - i,
    {
        proof {
            reveal(pow);
        }
        match scale.checked_mul(10) {
            None => {
                proof {
                    lemma_pow_increases(10, (i + 1) as nat, target as nat);
                }
                return None;
            },
            Some(next) => {
                scale = next;
            },
        }
        i = i + 1;
    }
    Some(scale)
}

/// The number of base units to mint for `amount` whole tokens:
/// `amount * 10^decimals`.
pub fn mint_token(ctx: &MintToken, amount: u64) -> (units: u64)
    requires
        mint_token_safe(*ctx, amount),
    ensures
        units == minted_units(amount, ctx.mint_decimals),
        units == amount * pow(10, ctx.mint_decimals as nat),
{
    let scale = decimal_scale(ctx.mint_decimals).unwrap();
    amount * scale
}

/// Whether minting `amount` whole tokens stays within `u64`; where it does not,
/// the instruction aborts.
pub fn mint_token_is_safe(ctx: &MintToken, amount: u64) -> (ok: bool)
    ensures
        ok == mint_token_safe(*ctx, amount),
{
    match decimal_scale(ctx.mint_decimals) {
        None => false,
        Some(scale) => amount.checked_mul(scale).is_some(),
    }
}

} // verus!
