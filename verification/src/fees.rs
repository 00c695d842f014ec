//! Settlement arithmetic: the three-way split of a purchase price among the
//! seller, the platform administrator, and the item's original creator.
//!
//! Both fee amounts are computed with integer arithmetic and truncate toward
//! zero, so the seller's amount absorbs the rounding remainder.

use vstd::prelude::*;

use crate::errors::ErrorCode;
use vstd::arithmetic::div_mod::{
    lemma_div_denominator, lemma_div_is_ordered, lemma_div_multiples_vanish,
    lemma_div_pos_is_pos, lemma_fundamental_div_mod, lemma_mod_division_less_than_divisor,
};
use vstd::arithmetic::mul::{lemma_mul_inequality, lemma_mul_nonnegative, lemma_mul_upper_bound};

verus! {

/// Fee and royalty rates are expressed in basis points: units of 1/10000.
pub const BPS_DENOMINATOR: u64 = 10000;

/// Hard cap on the platform fee rate and on the royalty rate: 10%.
pub const MAX_FEE_BPS: u64 = 1000;

/// The platform's cut of a sale: `floor(price * fee_bps / 10000)`.
pub open spec fn platform_fee_of(price: int, fee_bps: int) -> int {
    price * fee_bps / (BPS_DENOMINATOR as int)
}

/// The creator's royalty: `floor(price * royalty_bps / 10000)`.
pub open spec fn royalty_of(price: int, royalty_bps: int) -> int {
    price * royalty_bps / (BPS_DENOMINATOR as int)
}

/// What the seller receives: the price minus both fee amounts.
pub open spec fn seller_amount_of(price: int, fee_bps: int, royalty_bps: int) -> int {
    price - platform_fee_of(price, fee_bps) - royalty_of(price, royalty_bps)
}

/// A fee configuration is consistent with a price when the two fee amounts
/// together fit inside the price, so the seller's amount cannot underflow.
pub open spec fn fees_consistent(price: int, fee_bps: int, royalty_bps: int) -> bool {
    platform_fee_of(price, fee_bps) + royalty_of(price, royalty_bps) <= price
}

/// The three amounts a settled purchase pays out.
#[derive(Clone, Copy, Debug, PartialEq, Eq, Structural)]
pub struct FeeSplit {
    /// Paid by the buyer to the platform administrator.
    pub platform_fee: u64,
    /// Paid by the buyer to the item's original creator.
    pub royalty: u64,
    /// Paid by the buyer to the seller.
    pub seller_amount: u64,
}

/// A rate-capped fee amount is at most a tenth of the price:
/// `price * bps / 10000 <= price / 10` whenever `bps <= 1000`.
proof fn lemma_capped_fee_le_tenth(price: int, bps: int)
    requires
        0 <= price,
        0 <= bps <= MAX_FEE_BPS,
    ensures
        0 <= price * bps / (BPS_DENOMINATOR as int) <= price / 10,
{
    lemma_mul_nonnegative(price, bps);
    lemma_div_pos_is_pos(price * bps, BPS_DENOMINATOR as int);
    lemma_mul_inequality(bps, 1000, price);
    assert(bps * price == price * bps) by (nonlinear_arith);
    assert(1000 * price == price * 1000) by (nonlinear_arith);
    lemma_div_is_ordered(price * bps, price * 1000, BPS_DENOMINATOR as int);
    // price * 1000 / 10000 == (price * 1000 / 1000) / 10 == price / 10
    lemma_mul_nonnegative(price, 1000);
    lemma_div_denominator(price * 1000, 1000, 10);
    lemma_div_multiples_vanish(price, 1000);
    assert(1000 * price == price * 1000) by (nonlinear_arith);
}

/// With both rates at or below the 1000-bps cap, the two fee amounts are
/// nonnegative and together never exceed the price, so the seller's amount
/// lies between zero and the price.
pub proof fn lemma_fee_amounts_bounded(price: int, fee_bps: int, royalty_bps: int)
    requires
        0 <= price,
        0 <= fee_bps <= MAX_FEE_BPS,
        0 <= royalty_bps <= MAX_FEE_BPS,
    ensures
        0 <= platform_fee_of(price, fee_bps),
        0 <= royalty_of(price, royalty_bps),
        fees_consistent(price, fee_bps, royalty_bps),
        0 <= seller_amount_of(price, fee_bps, royalty_bps) <= price,
{
    lemma_capped_fee_le_tenth(price, fee_bps);
    lemma_capped_fee_le_tenth(price, royalty_bps);
    // 2 * (price / 10) <= price, since price == 10 * (price / 10) + price % 10.
    lemma_fundamental_div_mod(price, 10);
    lemma_mod_division_less_than_divisor(price, 10);
    lemma_div_pos_is_pos(price, 10);
}

/// Computes the settlement split for a price under a platform fee rate and a
/// royalty rate.  Returns the three amounts exactly as the floor formulas
/// give them, or `ArithmeticError` when the two fee amounts together exceed
/// the price (an inconsistent fee configuration); nothing else fails.
pub fn compute_fee_split(price: u64, fee_bps: u64, royalty_bps: u64) -> (r: Result<
    FeeSplit,
    ErrorCode,
>)
    ensures
        match r {
            Ok(split) => {
                &&& fees_consistent(price as int, fee_bps as int, royalty_bps as int)
                &&& split.platform_fee == platform_fee_of(price as int, fee_bps as int)
                &&& split.royalty == royalty_of(price as int, royalty_bps as int)
                &&& split.seller_amount == seller_amount_of(
                    price as int,
                    fee_bps as int,
                    royalty_bps as int,
                )
            },
            Err(e) => {
                &&& !fees_consistent(price as int, fee_bps as int, royalty_bps as int)
                &&& e == ErrorCode::ArithmeticError
            },
        },
{
    proof {
        lemma_mul_upper_bound(price as int, u64::MAX as int, fee_bps as int, u64::MAX as int);
        lemma_mul_upper_bound(price as int, u64::MAX as int, royalty_bps as int, u64::MAX as int);
        lemma_mul_nonnegative(price as int, fee_bps as int);
        lemma_mul_nonnegative(price as int, royalty_bps as int);
        lemma_div_pos_is_pos(price as int * fee_bps as int, BPS_DENOMINATOR as int);
        lemma_div_pos_is_pos(price as int * royalty_bps as int, BPS_DENOMINATOR as int);
        lemma_div_is_ordered(
            price as int * fee_bps as int,
            u64::MAX as int * u64::MAX as int,
            BPS_DENOMINATOR as int,
        );
        lemma_div_is_ordered(
            price as int * royalty_bps as int,
            u64::MAX as int * u64::MAX as int,
            BPS_DENOMINATOR as int,
        );
    }
    let fee_wide: u128 = (price as u128) * (fee_bps as u128) / (BPS_DENOMINATOR as u128);
    let royalty_wide: u128 = (price as u128) * (royalty_bps as u128) / (BPS_DENOMINATOR as u128);
    if fee_wide + royalty_wide > price as u128 {
        return Err(ErrorCode::ArithmeticError);
    }
    let platform_fee: u64 = fee_wide as u64;
    let royalty: u64 = royalty_wide as u64;
    let seller_amount: u64 = price - platform_fee - royalty;
    Ok(FeeSplit { platform_fee, royalty, seller_amount })
}

} // verus!
