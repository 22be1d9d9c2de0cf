use vstd::prelude::*;

use vstd::arithmetic::div_mod::{
    lemma_div_is_ordered, lemma_div_multiples_vanish, lemma_div_of0, lemma_div_pos_is_pos,
    lemma_fundamental_div_mod, lemma_fundamental_div_mod_converse_div,
    lemma_mod_division_less_than_divisor,
};
use vstd::arithmetic::mul::{
    lemma_mul_by_zero_is_zero, lemma_mul_inequality, lemma_mul_is_commutative,
    lemma_mul_is_distributive_add, lemma_mul_is_distributive_add_other_way,
    lemma_mul_is_distributive_sub, lemma_mul_left_inequality, lemma_mul_nonnegative,
    lemma_mul_strict_inequality_converse, lemma_mul_strictly_positive, lemma_mul_upper_bound,
};

use crate::errors::AmmError;

verus! {

/// Decimal precision of the liquidity-share token.
pub const LP_DECIMALS: u32 = 6;

/// Share of a reserve owed for `lp_amount` liquidity shares out of a supply
/// of `lp_supply`, truncated toward zero.
pub open spec fn proportional(lp_amount: int, reserve: int, lp_supply: int) -> int {
    lp_amount * reserve / lp_supply
}

/// Input amount that remains after the fee is deducted, truncated toward
/// zero.
pub open spec fn after_fee(amount_in: int, fee_bps: int) -> int {
    amount_in * (10000 - fee_bps) / 10000
}

/// Output amount of a swap: the constant-product formula solved for the
/// output, given the post-fee effective input, truncated toward zero.
/// The truncation rounds in the pool's favor, which is what keeps the
/// reserve product from ever decreasing through a trade.
pub open spec fn swap_out(reserve_in: int, reserve_out: int, amount_in: int, fee_bps: int) -> int {
    reserve_out * after_fee(amount_in, fee_bps) / (reserve_in + after_fee(amount_in, fee_bps))
}

/// Specified outcome of the proportional computation shared by deposit and
/// withdrawal: both per-asset shares, or `ArithmeticError` on a zero supply
/// (division by zero) or a share beyond the `u64` range (overflow).
pub open spec fn proportional_amounts_spec(
    reserve_x: u64,
    reserve_y: u64,
    lp_supply: u64,
    lp_amount: u64,
) -> Result<(u64, u64), AmmError> {
    let x = proportional(lp_amount as int, reserve_x as int, lp_supply as int);
    let y = proportional(lp_amount as int, reserve_y as int, lp_supply as int);
    if lp_supply == 0 {
        Err(AmmError::ArithmeticError)
    } else if x <= u64::MAX as int && y <= u64::MAX as int {
        Ok((x as u64, y as u64))
    } else {
        Err(AmmError::ArithmeticError)
    }
}

/// Specified outcome of the swap computation: the curve output, or
/// `ArithmeticError` when the curve denominator is zero.
pub open spec fn swap_output_spec(
    reserve_in: u64,
    reserve_out: u64,
    amount_in: u64,
    fee_bps: u16,
) -> Result<u64, AmmError> {
    if reserve_in as int + after_fee(amount_in as int, fee_bps as int) == 0 {
        Err(AmmError::ArithmeticError)
    } else {
        Ok(swap_out(reserve_in as int, reserve_out as int, amount_in as int, fee_bps as int) as u64)
    }
}

/// Proportional reserve amounts for `lp_amount` shares, computed with
/// 128-bit intermediates so the full `u64` range of reserves and supply
/// cannot overflow.  Shared by deposit and withdrawal, which use the same
/// formula symmetrically.
fn proportional_amounts(reserve_x: u64, reserve_y: u64, lp_supply: u64, lp_amount: u64) -> (r:
    Result<(u64, u64), AmmError>)
    ensures
        r == proportional_amounts_spec(reserve_x, reserve_y, lp_supply, lp_amount),
{
    if lp_supply == 0 {
        return Err(AmmError::ArithmeticError);
    }
    proof {
        lemma_mul_upper_bound(lp_amount as int, u64::MAX as int, reserve_x as int, u64::MAX as int);
        lemma_mul_upper_bound(lp_amount as int, u64::MAX as int, reserve_y as int, u64::MAX as int);
    }
    let wide_x: u128 = (lp_amount as u128) * (reserve_x as u128) / (lp_supply as u128);
    let wide_y: u128 = (lp_amount as u128) * (reserve_y as u128) / (lp_supply as u128);
    if wide_x > u64::MAX as u128 || wide_y > u64::MAX as u128 {
        return Err(AmmError::ArithmeticError);
    }
    Ok((wide_x as u64, wide_y as u64))
}

/// Reserve amounts a depositor owes for `lp_amount` freshly minted shares:
/// `x = lp_amount * reserve_x / lp_supply` and likewise for `y`, truncated
/// toward zero.  The proportional split is independent of the share token's
/// decimal precision, which is carried only to describe the share token.
///
/// Fails with `ArithmeticError` when `lp_supply` is zero (the bootstrap
/// deposit does not use this function) or when a result exceeds the `u64`
/// range.
pub fn deposit_amounts(reserve_x: u64, reserve_y: u64, lp_supply: u64, lp_amount: u64, decimals: u32)
    -> (r: Result<(u64, u64), AmmError>)
    ensures
        r == proportional_amounts_spec(reserve_x, reserve_y, lp_supply, lp_amount),
{
    proportional_amounts(reserve_x, reserve_y, lp_supply, lp_amount)
}

/// Reserve amounts returned to a withdrawer burning `lp_amount` shares:
/// the same proportional formula as `deposit_amounts`, used symmetrically.
pub fn withdraw_amounts(reserve_x: u64, reserve_y: u64, lp_supply: u64, lp_amount: u64, decimals: u32)
    -> (r: Result<(u64, u64), AmmError>)
    ensures
        r == proportional_amounts_spec(reserve_x, reserve_y, lp_supply, lp_amount),
{
    proportional_amounts(reserve_x, reserve_y, lp_supply, lp_amount)
}

/// Swap output for a post-fee effective input: the fee is deducted from
/// `amount_in` first, then the constant-product formula is solved for the
/// output, truncating in the pool's favor.  The result never exceeds
/// `reserve_out`.
///
/// Fails with `ArithmeticError` exactly when the curve denominator
/// `reserve_in + amount_in_after_fee` is zero.
pub fn swap_output(reserve_in: u64, reserve_out: u64, amount_in: u64, fee_bps: u16) -> (r:
    Result<u64, AmmError>)
    requires
        fee_bps <= 10000,
    ensures
        r == swap_output_spec(reserve_in, reserve_out, amount_in, fee_bps),
        reserve_in as int + after_fee(amount_in as int, fee_bps as int) > 0 ==> 0 <= swap_out(
            reserve_in as int,
            reserve_out as int,
            amount_in as int,
            fee_bps as int,
        ) <= reserve_out,
{
    let fee_factor: u128 = (10000 - fee_bps) as u128;
    proof {
        lemma_mul_upper_bound(amount_in as int, u64::MAX as int, fee_factor as int, 10000);
        lemma_after_fee_bounds(amount_in as int, fee_bps as int);
    }
    let effective_in: u128 = (amount_in as u128) * fee_factor / 10000;
    let denominator: u128 = (reserve_in as u128) + effective_in;
    if denominator == 0 {
        return Err(AmmError::ArithmeticError);
    }
    proof {
        lemma_mul_upper_bound(reserve_out as int, u64::MAX as int, effective_in as int, u64::MAX as int);
        lemma_mul_nonnegative(reserve_out as int, effective_in as int);
    }
    let numerator: u128 = (reserve_out as u128) * effective_in;
    let quotient: u128 = numerator / denominator;
    proof {
        lemma_div_pos_is_pos(numerator as int, denominator as int);
        if reserve_out == 0 {
            lemma_mul_by_zero_is_zero(effective_in as int);
            lemma_div_of0(denominator as int);
        } else {
            lemma_mul_left_inequality(reserve_out as int, effective_in as int, denominator as int);
            lemma_div_is_ordered(
                numerator as int,
                reserve_out as int * denominator as int,
                denominator as int,
            );
            lemma_mul_is_commutative(reserve_out as int, denominator as int);
            lemma_div_multiples_vanish(reserve_out as int, denominator as int);
        }
    }
    Ok(quotient as u64)
}

/// The post-fee effective input is never negative, never exceeds the raw
/// input, and is strictly below it when both the input and the fee are
/// positive.
proof fn lemma_after_fee_bounds(amount_in: int, fee_bps: int)
    requires
        0 <= amount_in,
        0 <= fee_bps <= 10000,
    ensures
        0 <= after_fee(amount_in, fee_bps) <= amount_in,
        0 < amount_in && 0 < fee_bps ==> after_fee(amount_in, fee_bps) < amount_in,
{
    lemma_mul_nonnegative(amount_in, 10000 - fee_bps);
    lemma_div_pos_is_pos(amount_in * (10000 - fee_bps), 10000);
    if amount_in == 0 {
        lemma_mul_by_zero_is_zero(10000 - fee_bps);
        lemma_div_of0(10000);
    } else {
        lemma_mul_left_inequality(amount_in, 10000 - fee_bps, 10000);
        lemma_div_is_ordered(amount_in * (10000 - fee_bps), amount_in * 10000, 10000);
        lemma_div_multiples_vanish(amount_in, 10000);
        if 0 < fee_bps {
            lemma_fundamental_div_mod(amount_in * (10000 - fee_bps), 10000);
            lemma_mod_division_less_than_divisor(amount_in * (10000 - fee_bps), 10000);
            lemma_mul_is_distributive_sub(amount_in, 10000, fee_bps);
            lemma_mul_strictly_positive(amount_in, fee_bps);
        }
    }
}

/// Burning no more shares than exist claims no more than the reserve: for
/// `lp_amount <= lp_supply` the proportional share stays within the vault.
pub proof fn lemma_share_within_reserve(reserve: int, lp_supply: int, lp_amount: int)
    requires
        0 < lp_supply,
        0 <= lp_amount <= lp_supply,
        0 <= reserve,
    ensures
        0 <= proportional(lp_amount, reserve, lp_supply) <= reserve,
{
    lemma_mul_nonnegative(lp_amount, reserve);
    lemma_div_pos_is_pos(lp_amount * reserve, lp_supply);
    lemma_mul_inequality(lp_amount, lp_supply, reserve);
    lemma_div_is_ordered(lp_amount * reserve, lp_supply * reserve, lp_supply);
    lemma_div_multiples_vanish(reserve, lp_supply);
}

/// One coordinate of the deposit/withdraw round trip: withdrawing the same
/// share amount immediately after a deposit divides out to exactly the
/// deposited reserve amount.
proof fn lemma_proportional_round_trip(reserve: int, lp_supply: int, lp_amount: int)
    requires
        0 < lp_supply,
        0 <= lp_amount,
        0 <= reserve,
    ensures
        proportional(
            lp_amount,
            reserve + proportional(lp_amount, reserve, lp_supply),
            lp_supply + lp_amount,
        ) == proportional(lp_amount, reserve, lp_supply),
{
    let share = lp_amount * reserve / lp_supply;
    let rest = lp_amount * reserve % lp_supply;
    lemma_mul_nonnegative(lp_amount, reserve);
    lemma_fundamental_div_mod(lp_amount * reserve, lp_supply);
    lemma_mod_division_less_than_divisor(lp_amount * reserve, lp_supply);
    lemma_div_pos_is_pos(lp_amount * reserve, lp_supply);
    // The grown numerator is the grown denominator times the old quotient,
    // plus the old remainder, which stays below the grown denominator.
    lemma_mul_is_distributive_add(lp_amount, reserve, share);
    lemma_mul_is_distributive_add_other_way(share, lp_supply, lp_amount);
    assert(lp_amount * (reserve + share) == share * (lp_supply + lp_amount) + rest);
    lemma_fundamental_div_mod_converse_div(
        lp_amount * (reserve + share),
        lp_supply + lp_amount,
        share,
        rest,
    );
}

/// Law: rounding in the proportional formulas can only lose value, never
/// create it.  For any positive share supply, computing the deposit amounts
/// for `lp_amount` shares and then the withdrawal amounts for the same
/// `lp_amount` against the grown reserves and supply returns amounts no
/// larger than were deposited.
pub proof fn lemma_deposit_withdraw_no_gain(
    reserve_x: int,
    reserve_y: int,
    lp_supply: int,
    lp_amount: int,
)
    requires
        0 < lp_supply,
        0 <= lp_amount,
        0 <= reserve_x,
        0 <= reserve_y,
    ensures
        proportional(
            lp_amount,
            reserve_x + proportional(lp_amount, reserve_x, lp_supply),
            lp_supply + lp_amount,
        ) <= proportional(lp_amount, reserve_x, lp_supply),
        proportional(
            lp_amount,
            reserve_y + proportional(lp_amount, reserve_y, lp_supply),
            lp_supply + lp_amount,
        ) <= proportional(lp_amount, reserve_y, lp_supply),
{
    lemma_proportional_round_trip(reserve_x, lp_supply, lp_amount);
    lemma_proportional_round_trip(reserve_y, lp_supply, lp_amount);
}

/// Law: a swap never decreases the reserve product.  With positive
/// reserves, the post-trade product is at least the pre-trade product for
/// every fee in range, and strictly above it whenever a positive input
/// pays a positive fee, so equality on a real trade is possible only at
/// `fee_bps == 0`.
pub proof fn lemma_swap_product_non_decreasing(
    reserve_in: int,
    reserve_out: int,
    amount_in: int,
    fee_bps: int,
)
    requires
        0 < reserve_in,
        0 < reserve_out,
        0 <= amount_in,
        0 <= fee_bps <= 10000,
    ensures
        (reserve_in + amount_in) * (reserve_out - swap_out(reserve_in, reserve_out, amount_in, fee_bps))
            >= reserve_in * reserve_out,
        0 < amount_in && 0 < fee_bps ==> (reserve_in + amount_in) * (reserve_out - swap_out(
            reserve_in,
            reserve_out,
            amount_in,
            fee_bps,
        )) > reserve_in * reserve_out,
{
    let effective = after_fee(amount_in, fee_bps);
    let denominator = reserve_in + effective;
    let numerator = reserve_out * effective;
    let quotient = numerator / denominator;
    let rest = numerator % denominator;
    lemma_after_fee_bounds(amount_in, fee_bps);
    lemma_mul_nonnegative(reserve_out, effective);
    lemma_fundamental_div_mod(numerator, denominator);
    lemma_mod_division_less_than_divisor(numerator, denominator);
    lemma_div_pos_is_pos(numerator, denominator);
    // The output stays strictly below the outgoing reserve: the effective
    // input is strictly below the denominator, so the quotient is too.
    lemma_mul_left_inequality(reserve_out, effective, denominator);
    lemma_mul_is_commutative(reserve_out, denominator);
    lemma_mul_is_commutative(denominator, quotient);
    lemma_mul_strict_inequality_converse(quotient, reserve_out, denominator);
    // What stays in the outgoing vault carries the whole pre-trade product
    // plus the division remainder.
    lemma_mul_is_distributive_sub(denominator, reserve_out, quotient);
    lemma_mul_is_distributive_sub(reserve_out, denominator, effective);
    lemma_mul_is_commutative(reserve_out, reserve_in);
    assert(denominator * (reserve_out - quotient) == reserve_in * reserve_out + rest);
    // The incoming vault grows by the full input, fee included.
    lemma_mul_inequality(denominator, reserve_in + amount_in, reserve_out - quotient);
    if 0 < amount_in && 0 < fee_bps {
        lemma_mul_is_distributive_add_other_way(
            reserve_out - quotient,
            denominator,
            amount_in - effective,
        );
        lemma_mul_strictly_positive(amount_in - effective, reserve_out - quotient);
    }
}

} // verus!
