//! Success-fee extraction in basis points, shared by the refund path and the
//! success-settlement path.

use vstd::prelude::*;

verus! {

/// Basis points in a whole: 10000 bps = 100%.
pub const BPS_DENOMINATOR: u64 = 10_000;

/// Fee taken from `gross` at `bps` basis points: `floor(gross * bps / 10000)`.
pub open spec fn spec_fee(gross: int, bps: int) -> int {
    gross * bps / (BPS_DENOMINATOR as int)
}

/// Splits `gross` into `(fee, net)` at `bps` basis points, with
/// `fee = floor(gross * bps / 10000)` and `net = gross - fee`. With `bps` at
/// most 10000 the fee can never exceed the gross amount.
pub fn fee_split(gross: u64, bps: u16) -> (r: (u64, u64))
    requires
        bps <= BPS_DENOMINATOR,
    ensures
        r.0 == spec_fee(gross as int, bps as int),
        r.1 == gross - r.0,
        r.0 <= gross,
{
    proof {
        lemma_fee_le_gross(gross as int, bps as int);
        assert((gross as int) * (bps as int) <= u128::MAX) by (nonlinear_arith)
            requires
                gross <= u64::MAX,
                bps <= 10_000,
        ;
    }
    let fee_wide = (gross as u128) * (bps as u128) / (BPS_DENOMINATOR as u128);
    let fee = fee_wide as u64;
    (fee, gross - fee)
}

/// At up to 10000 basis points the extracted fee never exceeds the gross
/// amount, and is never negative.
pub proof fn lemma_fee_le_gross(gross: int, bps: int)
    requires
        0 <= gross,
        0 <= bps <= BPS_DENOMINATOR,
    ensures
        0 <= spec_fee(gross, bps) <= gross,
{
    let d = BPS_DENOMINATOR as int;
    assert(gross * bps <= gross * d) by (nonlinear_arith)
        requires
            0 <= gross,
            bps <= d,
    ;
    assert(0 <= gross * bps) by (nonlinear_arith)
        requires
            0 <= gross,
            0 <= bps,
    ;
    vstd::arithmetic::div_mod::lemma_div_is_ordered(gross * bps, gross * d, d);
    vstd::arithmetic::div_mod::lemma_div_multiples_vanish(gross, d);
    vstd::arithmetic::div_mod::lemma_div_pos_is_pos(gross * bps, d);
}

} // verus!
