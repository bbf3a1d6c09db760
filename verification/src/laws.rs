//! Monetary laws of the presale, proved once over whole runs of operations:
//! the allocation accounting identity and the guarantee that the collected
//! deposits always cover every proportional refund.

use vstd::prelude::*;

use vstd::arithmetic::div_mod::{
    lemma_div_is_ordered, lemma_div_multiples_vanish, lemma_div_pos_is_pos,
    lemma_fundamental_div_mod, lemma_mod_bound,
};
use vstd::arithmetic::mul::{
    lemma_mul_is_distributive_add, lemma_mul_left_inequality, lemma_mul_nonnegative,
};

use crate::memecoin_config::{tier_target, FundingRaiseTier, MEMECOIN_TOTAL_SOLD};
use crate::pricing::{spec_allocation, spec_refund};

verus! {

/// Sum of a run of 64-bit amounts.
pub open spec fn total_of(amounts: Seq<u64>) -> int
    decreases amounts.len(),
{
    if amounts.len() == 0 {
        0
    } else {
        total_of(amounts.drop_last()) + amounts.last()
    }
}

/// Token pool balance left after a run of purchases, each debiting the pool
/// by its allocation, starting from the full sellable supply.
pub open spec fn pool_after_sales(allocs: Seq<u64>) -> int
    decreases allocs.len(),
{
    if allocs.len() == 0 {
        MEMECOIN_TOTAL_SOLD as int
    } else {
        pool_after_sales(allocs.drop_last()) - allocs.last()
    }
}

/// Token units allocated, in total, for a run of deposits under a tier.
pub open spec fn units_for_deposits(deposits: Seq<u64>, tier: FundingRaiseTier) -> int
    decreases deposits.len(),
{
    if deposits.len() == 0 {
        0
    } else {
        units_for_deposits(deposits.drop_last(), tier) + spec_allocation(
            deposits.last() as int,
            tier,
        )
    }
}

/// Gross base currency owed, in total, for a run of returned unit amounts
/// under a tier.
pub open spec fn total_refund(claims: Seq<u64>, tier: FundingRaiseTier) -> int
    decreases claims.len(),
{
    if claims.len() == 0 {
        0
    } else {
        total_refund(claims.drop_last(), tier) + spec_refund(claims.last() as int, tier)
    }
}

/// Accounting identity: after any run of purchases, each debiting the token
/// pool by exactly its receipt's allocation (as `Launch::buy` ensures), the
/// sold amount `sellableSupply - pool` equals the sum of all buyers'
/// allocated token units.
pub proof fn lemma_sold_equals_total_allocated(allocs: Seq<u64>)
    ensures
        MEMECOIN_TOTAL_SOLD - pool_after_sales(allocs) == total_of(allocs),
    decreases allocs.len(),
{
    if allocs.len() > 0 {
        lemma_sold_equals_total_allocated(allocs.drop_last());
    }
}

/// A sum of unsigned amounts is never negative.
proof fn lemma_total_nonneg(amounts: Seq<u64>)
    ensures
        0 <= total_of(amounts),
    decreases amounts.len(),
{
    if amounts.len() > 0 {
        lemma_total_nonneg(amounts.drop_last());
    }
}

/// Truncating division of scaled values is superadditive: the floors of two
/// shares never exceed the floor of their union.
proof fn lemma_scaled_div_superadditive(k: int, d: int, a: int, b: int)
    requires
        0 < d,
        0 <= k,
        0 <= a,
        0 <= b,
    ensures
        k * a / d + k * b / d <= k * (a + b) / d,
{
    let x = k * a;
    let y = k * b;
    lemma_mul_is_distributive_add(k, a, b);
    lemma_fundamental_div_mod(x, d);
    lemma_fundamental_div_mod(y, d);
    lemma_mod_bound(x, d);
    lemma_mod_bound(y, d);
    lemma_mul_is_distributive_add(d, x / d, y / d);
    lemma_div_is_ordered(d * (x / d + y / d), x + y, d);
    lemma_div_multiples_vanish(x / d + y / d, d);
}

/// Refunds grow with the units returned.
proof fn lemma_refund_monotonic(a: int, b: int, tier: FundingRaiseTier)
    requires
        0 <= a <= b,
    ensures
        spec_refund(a, tier) <= spec_refund(b, tier),
{
    let t = tier_target(tier) as int;
    assert(t >= 20_000_000_000);
    lemma_mul_left_inequality(t, a, b);
    lemma_div_is_ordered(t * a, t * b, MEMECOIN_TOTAL_SOLD as int);
}

/// Round trip through the two truncating formulas favors the protocol: the
/// refund owed for the allocation a deposit bought never exceeds the deposit.
pub proof fn lemma_refund_le_deposit(deposit: int, tier: FundingRaiseTier)
    requires
        0 <= deposit,
    ensures
        0 <= spec_refund(spec_allocation(deposit, tier), tier) <= deposit,
{
    let s = MEMECOIN_TOTAL_SOLD as int;
    let t = tier_target(tier) as int;
    assert(t >= 20_000_000_000);
    let units = s * deposit / t;
    lemma_mul_nonnegative(s, deposit);
    lemma_div_pos_is_pos(s * deposit, t);
    lemma_fundamental_div_mod(s * deposit, t);
    lemma_mod_bound(s * deposit, t);
    lemma_mul_nonnegative(t, units);
    lemma_div_pos_is_pos(t * units, s);
    lemma_div_is_ordered(t * units, s * deposit, s);
    lemma_div_multiples_vanish(deposit, s);
}

/// Splitting a pile of returned units across many claims never pays more
/// than refunding the pile at once.
proof fn lemma_total_refund_le_refund_of_total(claims: Seq<u64>, tier: FundingRaiseTier)
    ensures
        total_refund(claims, tier) <= spec_refund(total_of(claims), tier),
    decreases claims.len(),
{
    let s = MEMECOIN_TOTAL_SOLD as int;
    let t = tier_target(tier) as int;
    assert(t >= 20_000_000_000);
    if claims.len() > 0 {
        let rest = claims.drop_last();
        lemma_total_refund_le_refund_of_total(rest, tier);
        lemma_total_nonneg(rest);
        lemma_scaled_div_superadditive(t, s, total_of(rest), claims.last() as int);
    }
}

/// The value of all units a run of deposits bought, at target scale, never
/// exceeds the value of the deposits at supply scale.
proof fn lemma_units_value_bound(deposits: Seq<u64>, tier: FundingRaiseTier)
    ensures
        0 <= units_for_deposits(deposits, tier),
        tier_target(tier) * units_for_deposits(deposits, tier) <= MEMECOIN_TOTAL_SOLD * total_of(
            deposits,
        ),
    decreases deposits.len(),
{
    let s = MEMECOIN_TOTAL_SOLD as int;
    let t = tier_target(tier) as int;
    assert(t >= 20_000_000_000);
    if deposits.len() > 0 {
        let rest = deposits.drop_last();
        let deposit = deposits.last() as int;
        lemma_units_value_bound(rest, tier);
        lemma_total_nonneg(rest);
        let units = s * deposit / t;
        lemma_mul_nonnegative(s, deposit);
        lemma_div_pos_is_pos(s * deposit, t);
        lemma_fundamental_div_mod(s * deposit, t);
        lemma_mod_bound(s * deposit, t);
        lemma_mul_is_distributive_add(t, units_for_deposits(rest, tier), units);
        lemma_mul_is_distributive_add(s, total_of(rest), deposit);
    }
}

/// Collected deposits always cover the refunds: however the outstanding
/// (unreturned) token units of a launch are split across claimers, as long
/// as they total at most what those deposits bought, the gross refunds they
/// are owed total at most the base currency the deposits put into the pool.
pub proof fn lemma_refunds_covered_by_deposits(
    deposits: Seq<u64>,
    claims: Seq<u64>,
    tier: FundingRaiseTier,
)
    requires
        total_of(claims) <= units_for_deposits(deposits, tier),
    ensures
        total_refund(claims, tier) <= total_of(deposits),
{
    let s = MEMECOIN_TOTAL_SOLD as int;
    let t = tier_target(tier) as int;
    assert(t >= 20_000_000_000);
    lemma_total_refund_le_refund_of_total(claims, tier);
    lemma_total_nonneg(claims);
    lemma_units_value_bound(deposits, tier);
    lemma_refund_monotonic(total_of(claims), units_for_deposits(deposits, tier), tier);
    let units = units_for_deposits(deposits, tier);
    lemma_div_is_ordered(t * units, s * total_of(deposits), s);
    lemma_div_multiples_vanish(total_of(deposits), s);
}

} // verus!
