//! Per-launch configuration: funding tiers, launch status, and the derived
//! unit price.

use vstd::prelude::*;

use crate::errors::ErrorCode;

verus! {

/// Fixed total supply of every token sold through a launch, in token units.
pub const MEMECOIN_TOTAL_SUPPLY: u64 = 1_000_000_000_000_000;

/// Sellable portion of the supply: exactly 70% of `MEMECOIN_TOTAL_SUPPLY`.
/// The remainder is reserved outside the sale.
pub const MEMECOIN_TOTAL_SOLD: u64 = 700_000_000_000_000;

/// Fixed-point scale used by the unit-price formula.
pub const MEMECOIN_DECIMAL: u64 = 1_000_000;

/// Descriptive metadata handed to the one-time token setup call.
#[derive(Debug, Clone)]
pub struct InitTokenParams {
    pub name: String,
    pub symbol: String,
    pub uri: String,
    pub decimals: u8,
}

/// The five presets a creator can pick: each fixes the funding target (in
/// smallest base-currency units) and the sale duration (in seconds).
#[derive(Clone, Copy, PartialEq, Eq, Structural, Debug)]
pub enum FundingRaiseTier {
    TwentySol,
    FiftySol,
    OneHundredSol,
    FiveHundredSol,
    OneThousandSol,
}

/// Funding target of a tier, in smallest base-currency units.
pub open spec fn tier_target(tier: FundingRaiseTier) -> u64 {
    match tier {
        FundingRaiseTier::TwentySol => 20_000_000_000,
        FundingRaiseTier::FiftySol => 50_000_000_000,
        FundingRaiseTier::OneHundredSol => 100_000_000_000,
        FundingRaiseTier::FiveHundredSol => 500_000_000_000,
        FundingRaiseTier::OneThousandSol => 1_000_000_000_000,
    }
}

/// Sale duration of a tier, in seconds.
pub open spec fn tier_duration(tier: FundingRaiseTier) -> u64 {
    match tier {
        FundingRaiseTier::TwentySol => 43_200,
        FundingRaiseTier::FiftySol => 86_400,
        FundingRaiseTier::OneHundredSol => 172_800,
        FundingRaiseTier::FiveHundredSol => 259_200,
        FundingRaiseTier::OneThousandSol => 432_000,
    }
}

impl FundingRaiseTier {
    /// Funding target of this tier.
    pub fn value(&self) -> (v: u64)
        ensures
            v == tier_target(*self),
    {
        match self {
            FundingRaiseTier::TwentySol => 20_000_000_000,
            FundingRaiseTier::FiftySol => 50_000_000_000,
            FundingRaiseTier::OneHundredSol => 100_000_000_000,
            FundingRaiseTier::FiveHundredSol => 500_000_000_000,
            FundingRaiseTier::OneThousandSol => 1_000_000_000_000,
        }
    }

    /// Sale duration of this tier.
    pub fn time(&self) -> (t: u64)
        ensures
            t == tier_duration(*self),
    {
        match self {
            FundingRaiseTier::TwentySol => 12 * 3600,
            FundingRaiseTier::FiftySol => 24 * 3600,
            FundingRaiseTier::OneHundredSol => 48 * 3600,
            FundingRaiseTier::FiveHundredSol => 72 * 3600,
            FundingRaiseTier::OneThousandSol => 120 * 3600,
        }
    }
}

/// Lifecycle of a launch. `Ongoing` is the only state that accepts purchases;
/// `Failed` and `Succeed` are terminal.
#[derive(Clone, Copy, PartialEq, Eq, Structural, Debug)]
pub enum LaunchStatus {
    Ongoing,
    Failed,
    Succeed,
}

/// Per-launch record: who opened it, when, against which tier, and where it
/// stands. Identities are the external ledger's account keys, carried here as
/// plain integers.
#[derive(Clone, Copy, PartialEq, Eq, Structural, Debug)]
pub struct MemecoinConfig {
    pub creator: u64,
    pub creator_memecoin_index: u32,
    pub created_time: u64,
    pub funding_raise_tier: FundingRaiseTier,
    pub status: LaunchStatus,
    pub mint: u64,
}

/// Truncating unit price of a tier:
/// `target * DECIMALS * 10 / 7 / TOTAL_SUPPLY`, every division toward zero.
pub open spec fn spec_token_price(tier: FundingRaiseTier) -> int {
    tier_target(tier) * MEMECOIN_DECIMAL * 10 / 7 / (MEMECOIN_TOTAL_SUPPLY as int)
}

impl MemecoinConfig {
    /// Well-formedness: the tier deadline `created_time + duration` stays
    /// representable, so deadline comparisons never overflow.
    pub open spec fn wf(self) -> bool {
        self.created_time + tier_duration(self.funding_raise_tier) <= u64::MAX
    }

    /// Deadline after which the launch resolves: creation time plus the
    /// tier's duration.
    pub open spec fn deadline(self) -> int {
        self.created_time + tier_duration(self.funding_raise_tier)
    }

    /// Initializes the record for a fresh launch: the given creator, index,
    /// creation time and tier, with status `Ongoing`. The token identifier is
    /// attached later by the setup path.
    pub fn create_memecoin_config(
        &mut self,
        creator: u64,
        creator_memecoin_index: u32,
        created_time: u64,
        funding_raise_tier: FundingRaiseTier,
    ) -> (r: Result<(), ErrorCode>)
        requires
            created_time + tier_duration(funding_raise_tier) <= u64::MAX,
        ensures
            r is Ok,
            final(self).creator == creator,
            final(self).creator_memecoin_index == creator_memecoin_index,
            final(self).created_time == created_time,
            final(self).funding_raise_tier == funding_raise_tier,
            final(self).status == LaunchStatus::Ongoing,
            final(self).mint == old(self).mint,
            final(self).wf(),
    {
        self.creator = creator;
        self.creator_memecoin_index = creator_memecoin_index;
        self.created_time = created_time;
        self.funding_raise_tier = funding_raise_tier;
        self.status = LaunchStatus::Ongoing;

        Ok(())
    }

    /// Unit price of the token under this launch's tier. The fixed-point
    /// product fits in 64 bits for every tier, so the computation always
    /// succeeds and equals the truncating formula exactly.
    pub fn token_price(&self) -> (r: Result<u64, ErrorCode>)
        ensures
            r matches Ok(p) && p == spec_token_price(self.funding_raise_tier),
    {
        let target = self.funding_raise_tier.value();
        assert(target <= 1_000_000_000_000);
        let scaled = target * MEMECOIN_DECIMAL;
        let numerator = scaled * 10;
        let price = numerator / 7 / MEMECOIN_TOTAL_SUPPLY;
        Ok(price)
    }

    /// Overwrites the stored status. Forward-only use is enforced by the
    /// callers (the resolver and the engines), not here.
    pub fn set_memecoin_status(&mut self, status: LaunchStatus) -> (r: Result<(), ErrorCode>)
        ensures
            r is Ok,
            *final(self) == (MemecoinConfig { status, ..*old(self) }),
    {
        self.status = status;

        Ok(())
    }
}

} // verus!
