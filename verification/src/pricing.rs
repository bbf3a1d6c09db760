//! Pure pricing arithmetic: token units granted for a deposit, and base
//! currency returned for token units handed back.
//!
//! Both formulas multiply supply-scale by deposit-scale values, so the
//! intermediate product is carried in 128 bits before truncating back to the
//! 64-bit working width; every division truncates toward zero, in the
//! protocol's favor.

use vstd::prelude::*;

use crate::errors::ErrorCode;
use crate::memecoin_config::{tier_target, FundingRaiseTier, MEMECOIN_TOTAL_SOLD};

verus! {

/// Token units granted for `deposit` base-currency units:
/// `floor(sellableSupply * deposit / tierTarget)`.
pub open spec fn spec_allocation(deposit: int, tier: FundingRaiseTier) -> int {
    MEMECOIN_TOTAL_SOLD * deposit / (tier_target(tier) as int)
}

/// Base currency owed for `units` returned token units:
/// `floor(tierTarget * units / sellableSupply)`.
pub open spec fn spec_refund(units: int, tier: FundingRaiseTier) -> int {
    tier_target(tier) * units / (MEMECOIN_TOTAL_SOLD as int)
}

/// Token units sold for a deposit under a tier. The wide product cannot
/// overflow 128 bits; the result is refused with `Overflow` exactly when the
/// truncated quotient does not fit the native 64-bit width.
pub fn allocation_for(deposit: u64, tier: FundingRaiseTier) -> (r: Result<u64, ErrorCode>)
    ensures
        spec_allocation(deposit as int, tier) <= u64::MAX ==> (r matches Ok(units)
            && units == spec_allocation(deposit as int, tier)),
        spec_allocation(deposit as int, tier) > u64::MAX ==> r == Err::<u64, ErrorCode>(
            ErrorCode::Overflow,
        ),
{
    let target = tier.value();
    assert(target >= 20_000_000_000);
    proof {
        assert((MEMECOIN_TOTAL_SOLD as int) * (deposit as int) <= u128::MAX) by (nonlinear_arith)
            requires
                deposit <= u64::MAX,
        ;
    }
    let wide = (MEMECOIN_TOTAL_SOLD as u128) * (deposit as u128);
    let units = wide / (target as u128);
    if units > u64::MAX as u128 {
        Err(ErrorCode::Overflow)
    } else {
        Ok(units as u64)
    }
}

/// Base currency refunded for returned token units under a tier. The result
/// always fits 64 bits; a refund that truncates to zero is refused with
/// `RefundTooSmall` so that dust claims cannot silently burn value.
pub fn refund_for(units: u64, tier: FundingRaiseTier) -> (r: Result<u64, ErrorCode>)
    ensures
        spec_refund(units as int, tier) > 0 ==> (r matches Ok(amount) && amount == spec_refund(
            units as int,
            tier,
        )),
        spec_refund(units as int, tier) == 0 ==> r == Err::<u64, ErrorCode>(
            ErrorCode::RefundTooSmall,
        ),
{
    let target = tier.value();
    assert(target <= 1_000_000_000_000);
    proof {
        assert((target as int) * (units as int) <= u128::MAX) by (nonlinear_arith)
            requires
                target <= 1_000_000_000_000,
                units <= u64::MAX,
        ;
    }
    let wide = (target as u128) * (units as u128);
    let amount = wide / (MEMECOIN_TOTAL_SOLD as u128);
    proof {
        lemma_refund_fits(units as int, tier);
    }
    if amount == 0 {
        Err(ErrorCode::RefundTooSmall)
    } else {
        Ok(amount as u64)
    }
}

/// A refund computed for 64-bit many units always fits the 64-bit width.
proof fn lemma_refund_fits(units: int, tier: FundingRaiseTier)
    requires
        0 <= units <= u64::MAX,
    ensures
        0 <= spec_refund(units, tier) <= u64::MAX,
{
    let t = tier_target(tier) as int;
    let s = MEMECOIN_TOTAL_SOLD as int;
    assert(t * units <= 1_000_000_000_000 * units) by (nonlinear_arith)
        requires
            t <= 1_000_000_000_000,
            0 <= units,
    ;
    assert(0 <= t * units) by (nonlinear_arith)
        requires
            0 <= t,
            0 <= units,
    ;
    assert(t * units / s <= t * units / s);
    vstd::arithmetic::div_mod::lemma_div_is_ordered(
        t * units,
        1_000_000_000_000 * units,
        s,
    );
    assert(1_000_000_000_000 * units / s <= u64::MAX) by (nonlinear_arith)
        requires
            0 <= units <= u64::MAX,
            s == 700_000_000_000_000,
    ;
    vstd::arithmetic::div_mod::lemma_div_pos_is_pos(t * units, s);
}

} // verus!
