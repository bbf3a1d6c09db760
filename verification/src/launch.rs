//! The launch itself: its configuration plus the two pool balances the
//! external ledger holds for it, and the purchase / settlement engines that
//! move value against them.
//!
//! Counterparty balances are handed in as plain wallets; every call either
//! commits all of its balance changes or none (all checks precede the first
//! mutation). The one exception, deliberate in the protocol, is the lazily
//! resolved status: a deadline-driven transition persists even when the
//! triggering call then fails.

use vstd::prelude::*;

use crate::errors::ErrorCode;
use crate::fees::{fee_split, spec_fee, BPS_DENOMINATOR};
use crate::global_config::GlobalConfig;
use crate::memecoin_config::{
    spec_token_price, tier_target, FundingRaiseTier, LaunchStatus, MemecoinConfig,
    MEMECOIN_TOTAL_SOLD,
};
use crate::pricing::{allocation_for, refund_for, spec_allocation, spec_refund};
use crate::resolver::{derived_status, resolution_consistent, resolved_status};

verus! {

/// A counterparty account as the ledger shows it: its identity and its two
/// balances.
#[derive(Clone, Copy, PartialEq, Eq, Structural, Debug)]
pub struct Wallet {
    pub owner: u64,
    pub lamports: u64,
    pub tokens: u64,
}

/// One presale: the per-launch record and the balances the launch itself
/// holds - unsold token units and collected base currency.
#[derive(Clone, Copy, PartialEq, Eq, Structural, Debug)]
pub struct Launch {
    pub config: MemecoinConfig,
    pub token_pool: u64,
    pub lamport_pool: u64,
}

/// Token units sold so far: the sellable supply less what the launch still
/// holds.
pub open spec fn spec_sold(launch: Launch) -> int {
    MEMECOIN_TOTAL_SOLD - launch.token_pool
}

/// Base currency wrapped for the success-settlement path: the funding target
/// net of the success fee, less the pool-creation and creator-gain charges.
pub open spec fn spec_wrap_amount(
    tier: FundingRaiseTier,
    bps: int,
    pool_creation_fee: int,
    creator_gain_fee: int,
) -> int {
    tier_target(tier) * (BPS_DENOMINATOR - bps) / (BPS_DENOMINATOR as int) - pool_creation_fee
        - creator_gain_fee
}

/// Both pool balances agree between two launch states.
pub open spec fn pools_unchanged(a: Launch, b: Launch) -> bool {
    a.token_pool == b.token_pool && a.lamport_pool == b.lamport_pool
}

/// Receipt of a completed purchase: the durable audit record external systems
/// persist.
#[derive(Debug)]
pub struct MemecoinBought {
    pub buyer: u64,
    pub buy_amount: u64,
    pub mint: u64,
    pub token_price: u64,
    pub remain_amount: u64,
    pub hash: String,
}

/// Receipt of a completed refund claim.
#[derive(Clone, Copy, PartialEq, Eq, Structural, Debug)]
pub struct LamportsClaimed {
    pub claimer: u64,
    pub claim_amount: u64,
    pub mint: u64,
    pub token_price: u64,
}

impl Launch {
    /// Well-formedness: the configuration is well-formed and the launch never
    /// holds more token units than were ever sellable.
    pub open spec fn wf(self) -> bool {
        self.config.wf() && self.token_pool <= MEMECOIN_TOTAL_SOLD
    }

    /// Opens a launch for a freshly set-up token: the whole sellable supply
    /// in the token pool, no base currency collected yet.
    pub fn new(config: MemecoinConfig) -> (launch: Launch)
        requires
            config.wf(),
        ensures
            launch == (Launch { config, token_pool: MEMECOIN_TOTAL_SOLD, lamport_pool: 0 }),
            launch.wf(),
            spec_sold(launch) == 0,
    {
        Launch { config, token_pool: MEMECOIN_TOTAL_SOLD, lamport_pool: 0 }
    }

    /// Token units sold so far, derived from the pool balance on demand.
    pub fn sold_amount(&self) -> (sold: u64)
        requires
            self.wf(),
        ensures
            sold == spec_sold(*self),
    {
        MEMECOIN_TOTAL_SOLD - self.token_pool
    }

    /// A buyer deposits `buy_sol_amount` base-currency units and receives the
    /// pro-rata token allocation.
    ///
    /// The sale must be `Ongoing`; the allocation must be representable and
    /// must not push the sold amount past the sellable supply; past the
    /// deadline the terminal status is persisted and the purchase aborts with
    /// `SaleClosed`; a purchase that sells out exactly flips the launch to
    /// `Succeed` and completes. On success the buyer's deposit moves into the
    /// launch's currency pool and the allocation moves out of its token pool,
    /// atomically; on every failure no balance changes.
    pub fn buy(&mut self, now: u64, buyer: &mut Wallet, buy_sol_amount: u64, hash: String) -> (r:
        Result<MemecoinBought, ErrorCode>)
        requires
            old(self).wf(),
        ensures
            final(self).wf(),
            spec_sold(*final(self)) <= MEMECOIN_TOTAL_SOLD,
            final(buyer).owner == old(buyer).owner,
            final(self).config == (MemecoinConfig {
                status: final(self).config.status,
                ..old(self).config
            }),
            ({
                let l0 = *old(self);
                let b0 = *old(buyer);
                let l1 = *final(self);
                let b1 = *final(buyer);
                let units = spec_allocation(buy_sol_amount as int, l0.config.funding_raise_tier);
                let ongoing = l0.config.status is Ongoing;
                let fits = units <= u64::MAX;
                let capacity = units <= l0.token_pool;
                let open_sale = now < l0.config.deadline();
                let funded = b0.lamports >= buy_sol_amount;
                let creditable = l0.lamport_pool + buy_sol_amount <= u64::MAX && b0.tokens + units
                    <= u64::MAX;
                &&& !ongoing ==> r == Err::<MemecoinBought, ErrorCode>(ErrorCode::StatusNotOngoing)
                    && l1 == l0 && b1 == b0
                &&& ongoing && !fits ==> r == Err::<MemecoinBought, ErrorCode>(ErrorCode::Overflow)
                    && l1 == l0 && b1 == b0
                &&& ongoing && fits && !capacity ==> r == Err::<MemecoinBought, ErrorCode>(
                    ErrorCode::AllocationExhausted,
                ) && l1 == l0 && b1 == b0
                &&& ongoing && fits && capacity && !open_sale ==> r == Err::<
                    MemecoinBought,
                    ErrorCode,
                >(ErrorCode::SaleClosed) && pools_unchanged(l1, l0) && b1 == b0
                    && l1.config.status == (if l0.token_pool == 0 {
                    LaunchStatus::Succeed
                } else {
                    LaunchStatus::Failed
                })
                &&& ongoing && fits && capacity && open_sale && !funded ==> r == Err::<
                    MemecoinBought,
                    ErrorCode,
                >(ErrorCode::InsufficientFunds) && l1 == l0 && b1 == b0
                &&& ongoing && fits && capacity && open_sale && funded && !creditable ==> r == Err::<
                    MemecoinBought,
                    ErrorCode,
                >(ErrorCode::CalculationError) && l1 == l0 && b1 == b0
                &&& ongoing && fits && capacity && open_sale && funded && creditable ==> (r matches
                    Ok(rec) && {
                    &&& l1.token_pool == l0.token_pool - units
                    &&& spec_sold(l1) == spec_sold(l0) + units
                    &&& l1.lamport_pool == l0.lamport_pool + buy_sol_amount
                    &&& b1.lamports == b0.lamports - buy_sol_amount
                    &&& b1.tokens == b0.tokens + units
                    &&& l1.config.status == (if units == l0.token_pool {
                        LaunchStatus::Succeed
                    } else {
                        LaunchStatus::Ongoing
                    })
                    &&& rec.buyer == b0.owner
                    &&& rec.buy_amount == units
                    &&& rec.mint == l0.config.mint
                    &&& rec.token_price == spec_token_price(l0.config.funding_raise_tier)
                    &&& rec.remain_amount == l0.token_pool - units
                    &&& rec.hash@ == hash@
                })
            }),
    {
        if !matches!(self.config.status, LaunchStatus::Ongoing) {
            return Err(ErrorCode::StatusNotOngoing);
        }
        let buy_amount = match allocation_for(buy_sol_amount, self.config.funding_raise_tier) {
            Ok(units) => units,
            Err(e) => {
                return Err(e);
            },
        };
        if buy_amount > self.token_pool {
            return Err(ErrorCode::AllocationExhausted);
        }
        let sold_amount = MEMECOIN_TOTAL_SOLD - self.token_pool;
        let deadline = self.config.created_time + self.config.funding_raise_tier.time();
        if now >= deadline {
            let _ = self.config.resolve_status(now, sold_amount);
            return Err(ErrorCode::SaleClosed);
        }
        if buyer.lamports < buy_sol_amount {
            return Err(ErrorCode::InsufficientFunds);
        }
        let new_lamport_pool = match self.lamport_pool.checked_add(buy_sol_amount) {
            Some(v) => v,
            None => {
                return Err(ErrorCode::CalculationError);
            },
        };
        let new_buyer_tokens = match buyer.tokens.checked_add(buy_amount) {
            Some(v) => v,
            None => {
                return Err(ErrorCode::CalculationError);
            },
        };
        if buy_amount == self.token_pool {
            let _ = self.config.set_memecoin_status(LaunchStatus::Succeed);
        }
        buyer.lamports = buyer.lamports - buy_sol_amount;
        self.lamport_pool = new_lamport_pool;
        self.token_pool = self.token_pool - buy_amount;
        buyer.tokens = new_buyer_tokens;
        let token_price = match self.config.token_price() {
            Ok(p) => p,
            Err(e) => {
                return Err(e);
            },
        };
        Ok(
            MemecoinBought {
                buyer: buyer.owner,
                buy_amount,
                mint: self.config.mint,
                token_price,
                remain_amount: self.token_pool,
                hash,
            },
        )
    }

    /// A claimer returns `claim_amount` token units and receives the
    /// proportional refund, less the success fee, once the launch has failed.
    ///
    /// Before the deadline nothing is resolvable; at or past it the resolved
    /// status is persisted, a sold-out launch refuses claims, and a failed
    /// one pays out. A same-call transition to `Failed` lets the claim ride
    /// through - unlike a purchase, which a same-call transition aborts. On
    /// success the returned units re-enter the token pool and the gross
    /// refund leaves the currency pool, split between the claimer and the fee
    /// receiver; on every failure no balance changes.
    pub fn claim(
        &mut self,
        global: &GlobalConfig,
        now: u64,
        claimer: &mut Wallet,
        fee_receiver: &mut Wallet,
        claim_amount: u64,
    ) -> (r: Result<LamportsClaimed, ErrorCode>)
        requires
            old(self).wf(),
            global.wf(),
        ensures
            final(self).wf(),
            final(claimer).owner == old(claimer).owner,
            final(fee_receiver).owner == old(fee_receiver).owner,
            final(fee_receiver).tokens == old(fee_receiver).tokens,
            final(self).config == (MemecoinConfig {
                status: final(self).config.status,
                ..old(self).config
            }),
            ({
                let l0 = *old(self);
                let c0 = *old(claimer);
                let f0 = *old(fee_receiver);
                let l1 = *final(self);
                let c1 = *final(claimer);
                let f1 = *final(fee_receiver);
                let sold = (MEMECOIN_TOTAL_SOLD - l0.token_pool) as u64;
                let ended = now >= l0.config.deadline();
                let consistent = resolution_consistent(l0.config, now, sold);
                let outcome = resolved_status(l0.config, now, sold);
                let gross = spec_refund(claim_amount as int, l0.config.funding_raise_tier);
                let fee = spec_fee(gross, global.launch_success_fee_bps as int);
                let net = gross - fee;
                let has_tokens = c0.tokens >= claim_amount;
                let within_sold = l0.token_pool + claim_amount <= MEMECOIN_TOTAL_SOLD;
                let covered = gross <= l0.lamport_pool;
                let creditable = c0.lamports + net <= u64::MAX && f0.lamports + fee <= u64::MAX;
                &&& !ended ==> r == Err::<LamportsClaimed, ErrorCode>(
                    ErrorCode::SaleNotYetResolvable,
                ) && l1 == l0 && c1 == c0 && f1 == f0
                &&& ended && !consistent ==> r == Err::<LamportsClaimed, ErrorCode>(
                    ErrorCode::InconsistentState,
                ) && l1 == l0 && c1 == c0 && f1 == f0
                &&& ended && consistent && outcome is Succeed ==> r == Err::<
                    LamportsClaimed,
                    ErrorCode,
                >(ErrorCode::ClaimsClosedOnSuccess) && pools_unchanged(l1, l0) && c1 == c0 && f1
                    == f0 && l1.config.status is Succeed
                &&& ended && consistent && outcome is Failed ==> l1.config.status is Failed && {
                    &&& !has_tokens ==> r == Err::<LamportsClaimed, ErrorCode>(
                        ErrorCode::InsufficientTokenBalance,
                    ) && pools_unchanged(l1, l0) && c1 == c0 && f1 == f0
                    &&& has_tokens && !within_sold ==> r == Err::<LamportsClaimed, ErrorCode>(
                        ErrorCode::InconsistentState,
                    ) && pools_unchanged(l1, l0) && c1 == c0 && f1 == f0
                    &&& has_tokens && within_sold && gross == 0 ==> r == Err::<
                        LamportsClaimed,
                        ErrorCode,
                    >(ErrorCode::RefundTooSmall) && pools_unchanged(l1, l0) && c1 == c0 && f1 == f0
                    &&& has_tokens && within_sold && gross > 0 && !covered ==> r == Err::<
                        LamportsClaimed,
                        ErrorCode,
                    >(ErrorCode::InsufficientPoolBalance) && pools_unchanged(l1, l0) && c1 == c0
                        && f1 == f0
                    &&& has_tokens && within_sold && gross > 0 && covered && !creditable ==> r
                        == Err::<LamportsClaimed, ErrorCode>(ErrorCode::CalculationError)
                        && pools_unchanged(l1, l0) && c1 == c0 && f1 == f0
                    &&& has_tokens && within_sold && gross > 0 && covered && creditable ==> (r
                        matches Ok(rec) && {
                        &&& l1.token_pool == l0.token_pool + claim_amount
                        &&& l1.lamport_pool == l0.lamport_pool - gross
                        &&& c1.tokens == c0.tokens - claim_amount
                        &&& c1.lamports == c0.lamports + net
                        &&& f1.lamports == f0.lamports + fee
                        &&& rec == (LamportsClaimed {
                            claimer: c0.owner,
                            claim_amount,
                            mint: l0.config.mint,
                            token_price: spec_token_price(
                                l0.config.funding_raise_tier,
                            ) as u64,
                        })
                    })
                }
            }),
    {
        let sold_amount = MEMECOIN_TOTAL_SOLD - self.token_pool;
        let deadline = self.config.created_time + self.config.funding_raise_tier.time();
        if now < deadline {
            return Err(ErrorCode::SaleNotYetResolvable);
        }
        let outcome = match self.config.resolve_status(now, sold_amount) {
            Ok(status) => status,
            Err(e) => {
                return Err(e);
            },
        };
        match outcome {
            LaunchStatus::Succeed => {
                return Err(ErrorCode::ClaimsClosedOnSuccess);
            },
            LaunchStatus::Ongoing => {
                // Past the deadline resolution never reports Ongoing.
                return Err(ErrorCode::SaleNotYetResolvable);
            },
            LaunchStatus::Failed => {},
        }
        if claimer.tokens < claim_amount {
            return Err(ErrorCode::InsufficientTokenBalance);
        }
        if claim_amount > sold_amount {
            return Err(ErrorCode::InconsistentState);
        }
        let gross = match refund_for(claim_amount, self.config.funding_raise_tier) {
            Ok(amount) => amount,
            Err(e) => {
                return Err(e);
            },
        };
        if gross > self.lamport_pool {
            return Err(ErrorCode::InsufficientPoolBalance);
        }
        let (fee, net) = fee_split(gross, global.launch_success_fee_bps);
        let new_claimer_lamports = match claimer.lamports.checked_add(net) {
            Some(v) => v,
            None => {
                return Err(ErrorCode::CalculationError);
            },
        };
        let new_fee_lamports = match fee_receiver.lamports.checked_add(fee) {
            Some(v) => v,
            None => {
                return Err(ErrorCode::CalculationError);
            },
        };
        claimer.tokens = claimer.tokens - claim_amount;
        self.token_pool = self.token_pool + claim_amount;
        self.lamport_pool = self.lamport_pool - gross;
        claimer.lamports = new_claimer_lamports;
        fee_receiver.lamports = new_fee_lamports;
        let token_price = match self.config.token_price() {
            Ok(p) => p,
            Err(e) => {
                return Err(e);
            },
        };
        Ok(
            LamportsClaimed {
                claimer: claimer.owner,
                claim_amount,
                mint: self.config.mint,
                token_price,
            },
        )
    }

    /// Wraps the raised base currency for the success-settlement path: the
    /// funding target net of the success fee, less the pool-creation and
    /// creator-gain charges, leaves the currency pool. Only a launch that
    /// already stands at `Succeed` may wrap; a negative net amount is an
    /// arithmetic refusal, and the pool is never over-debited.
    pub fn wrap_sol(
        &mut self,
        global: &GlobalConfig,
        pool_creation_fee: u64,
        creator_gain_fee: u64,
    ) -> (r: Result<u64, ErrorCode>)
        requires
            old(self).wf(),
            global.wf(),
        ensures
            final(self).wf(),
            final(self).config == old(self).config,
            final(self).token_pool == old(self).token_pool,
            ({
                let l0 = *old(self);
                let l1 = *final(self);
                let wrap = spec_wrap_amount(
                    l0.config.funding_raise_tier,
                    global.launch_success_fee_bps as int,
                    pool_creation_fee as int,
                    creator_gain_fee as int,
                );
                &&& !(l0.config.status is Succeed) ==> r == Err::<u64, ErrorCode>(
                    ErrorCode::OnlyWrapSolWhenLaunchSuccess,
                ) && l1 == l0
                &&& l0.config.status is Succeed && wrap < 0 ==> r == Err::<u64, ErrorCode>(
                    ErrorCode::CalculationError,
                ) && l1 == l0
                &&& l0.config.status is Succeed && wrap >= 0 && wrap > l0.lamport_pool ==> r
                    == Err::<u64, ErrorCode>(ErrorCode::InsufficientPoolBalance) && l1 == l0
                &&& l0.config.status is Succeed && 0 <= wrap <= l0.lamport_pool ==> r == Ok::<
                    u64,
                    ErrorCode,
                >(wrap as u64) && l1.lamport_pool == l0.lamport_pool - wrap
            }),
    {
        if !matches!(self.config.status, LaunchStatus::Succeed) {
            return Err(ErrorCode::OnlyWrapSolWhenLaunchSuccess);
        }
        let target = self.config.funding_raise_tier.value();
        assert(target <= 1_000_000_000_000);
        let keep_bps = BPS_DENOMINATOR - (global.launch_success_fee_bps as u64);
        proof {
            assert((target as int) * (keep_bps as int) <= u64::MAX) by (nonlinear_arith)
                requires
                    target <= 1_000_000_000_000,
                    keep_bps <= 10_000,
            ;
        }
        let net_target = (target * keep_bps) / BPS_DENOMINATOR;
        let after_pool_fee = match net_target.checked_sub(pool_creation_fee) {
            Some(v) => v,
            None => {
                return Err(ErrorCode::CalculationError);
            },
        };
        let wrap = match after_pool_fee.checked_sub(creator_gain_fee) {
            Some(v) => v,
            None => {
                return Err(ErrorCode::CalculationError);
            },
        };
        if wrap > self.lamport_pool {
            return Err(ErrorCode::InsufficientPoolBalance);
        }
        self.lamport_pool = self.lamport_pool - wrap;
        Ok(wrap)
    }
}

} // verus!
