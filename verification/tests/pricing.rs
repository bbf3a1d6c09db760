use presale::errors::ErrorCode;
use presale::memecoin_config::{FundingRaiseTier, LaunchStatus, MemecoinConfig};
use presale::pricing::{allocation_for, refund_for};

fn config(tier: FundingRaiseTier) -> MemecoinConfig {
    MemecoinConfig {
        creator: 1,
        creator_memecoin_index: 0,
        created_time: 1_000,
        funding_raise_tier: tier,
        status: LaunchStatus::Ongoing,
        mint: 9,
    }
}

#[test]
fn tier_targets_and_durations() {
    assert_eq!(FundingRaiseTier::TwentySol.value(), 20_000_000_000);
    assert_eq!(FundingRaiseTier::FiftySol.value(), 50_000_000_000);
    assert_eq!(FundingRaiseTier::OneHundredSol.value(), 100_000_000_000);
    assert_eq!(FundingRaiseTier::FiveHundredSol.value(), 500_000_000_000);
    assert_eq!(FundingRaiseTier::OneThousandSol.value(), 1_000_000_000_000);
    assert_eq!(FundingRaiseTier::TwentySol.time(), 43_200);
    assert_eq!(FundingRaiseTier::FiftySol.time(), 86_400);
    assert_eq!(FundingRaiseTier::OneHundredSol.time(), 172_800);
    assert_eq!(FundingRaiseTier::FiveHundredSol.time(), 259_200);
    assert_eq!(FundingRaiseTier::OneThousandSol.time(), 432_000);
}

#[test]
fn half_target_deposit_buys_half_the_supply() {
    // 700e12 * 10e9 / 20e9 = 350e12 token units.
    assert_eq!(
        allocation_for(10_000_000_000, FundingRaiseTier::TwentySol),
        Ok(350_000_000_000_000)
    );
}

#[test]
fn allocation_scales_linearly_with_the_deposit() {
    // 700e12 * 3 / 20e9 = 105_000 token units.
    assert_eq!(allocation_for(3, FundingRaiseTier::TwentySol), Ok(105_000));
    // 700e12 * 1 / 1e12 = 700 token units.
    assert_eq!(allocation_for(1, FundingRaiseTier::OneThousandSol), Ok(700));
}

#[test]
fn allocation_overflow_is_refused() {
    assert_eq!(
        allocation_for(u64::MAX, FundingRaiseTier::TwentySol),
        Err(ErrorCode::Overflow)
    );
}

#[test]
fn refund_matches_proportional_formula() {
    // 20e9 * 350e12 / 700e12 = 10e9.
    assert_eq!(
        refund_for(350_000_000_000_000, FundingRaiseTier::TwentySol),
        Ok(10_000_000_000)
    );
}

#[test]
fn dust_refund_is_refused() {
    // 20e9 * 34_999 / 700e12 truncates to zero.
    assert_eq!(
        refund_for(34_999, FundingRaiseTier::TwentySol),
        Err(ErrorCode::RefundTooSmall)
    );
    // The smallest refundable return under this tier is 35_000 units.
    assert_eq!(refund_for(35_000, FundingRaiseTier::TwentySol), Ok(1));
}

#[test]
fn unit_price_for_every_tier() {
    // target * 1e6 * 10 / 7 / 1e15, truncating at each division.
    assert_eq!(config(FundingRaiseTier::TwentySol).token_price(), Ok(28));
    assert_eq!(config(FundingRaiseTier::FiftySol).token_price(), Ok(71));
    assert_eq!(config(FundingRaiseTier::OneHundredSol).token_price(), Ok(142));
    assert_eq!(config(FundingRaiseTier::FiveHundredSol).token_price(), Ok(714));
    assert_eq!(config(FundingRaiseTier::OneThousandSol).token_price(), Ok(1428));
}
