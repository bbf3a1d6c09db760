//! Lazy, call-triggered status resolution: evaluated at the top of every
//! mutating engine call, never by a background timer.

use vstd::prelude::*;

use crate::errors::ErrorCode;
use crate::memecoin_config::{LaunchStatus, MemecoinConfig, MEMECOIN_TOTAL_SOLD};

verus! {

/// Status the balances and the clock dictate, ignoring what is stored: past
/// the deadline the launch is `Succeed` exactly when the sellable supply is
/// fully sold, `Failed` otherwise; before the deadline nothing is dictated.
pub open spec fn derived_status(cfg: MemecoinConfig, now: u64, sold_amount: u64) -> LaunchStatus {
    if now >= cfg.deadline() {
        if sold_amount == MEMECOIN_TOTAL_SOLD {
            LaunchStatus::Succeed
        } else {
            LaunchStatus::Failed
        }
    } else {
        LaunchStatus::Ongoing
    }
}

/// Status stored after one lazy resolution step: an `Ongoing` launch takes
/// whatever the clock and balances dictate; a terminal status never moves.
pub open spec fn resolved_status(cfg: MemecoinConfig, now: u64, sold_amount: u64) -> LaunchStatus {
    if cfg.status is Ongoing {
        derived_status(cfg, now, sold_amount)
    } else {
        cfg.status
    }
}

/// A resolution step is consistent unless the stored status is terminal and
/// the balances dictate the other terminal status - a bookkeeping fault.
pub open spec fn resolution_consistent(cfg: MemecoinConfig, now: u64, sold_amount: u64) -> bool {
    cfg.status is Ongoing || derived_status(cfg, now, sold_amount) is Ongoing || derived_status(
        cfg,
        now,
        sold_amount,
    ) == cfg.status
}

impl MemecoinConfig {
    /// One lazy resolution step. Stores and returns the resolved status;
    /// terminal states are idempotent no-ops, and a terminal state that
    /// contradicts the balances is surfaced as `InconsistentState` without
    /// being overwritten. Nothing but the status field changes.
    pub fn resolve_status(&mut self, now: u64, sold_amount: u64) -> (r: Result<
        LaunchStatus,
        ErrorCode,
    >)
        requires
            old(self).wf(),
        ensures
            *final(self) == (MemecoinConfig { status: final(self).status, ..*old(self) }),
            old(self).status is Ongoing || final(self).status == old(self).status,
            resolution_consistent(*old(self), now, sold_amount) ==> {
                &&& final(self).status == resolved_status(*old(self), now, sold_amount)
                &&& r == Ok::<LaunchStatus, ErrorCode>(resolved_status(*old(self), now, sold_amount))
            },
            !resolution_consistent(*old(self), now, sold_amount) ==> {
                &&& *final(self) == *old(self)
                &&& r == Err::<LaunchStatus, ErrorCode>(ErrorCode::InconsistentState)
            },
    {
        let deadline = self.created_time + self.funding_raise_tier.time();
        let derived = if now >= deadline {
            if sold_amount == MEMECOIN_TOTAL_SOLD {
                LaunchStatus::Succeed
            } else {
                LaunchStatus::Failed
            }
        } else {
            LaunchStatus::Ongoing
        };
        match self.status {
            LaunchStatus::Ongoing => {
                if !matches!(derived, LaunchStatus::Ongoing) {
                    self.status = derived;
                }
                Ok(self.status)
            },
            stored => {
                if matches!(derived, LaunchStatus::Ongoing) || derived == stored {
                    Ok(stored)
                } else {
                    Err(ErrorCode::InconsistentState)
                }
            },
        }
    }
}

/// Resolving twice in immediate succession, with the same clock reading and
/// the same sold amount in between, stores and reports the same status as
/// resolving once: lazy resolution is idempotent.
pub proof fn lemma_resolution_idempotent(cfg: MemecoinConfig, now: u64, sold_amount: u64)
    ensures
        ({
            let once = MemecoinConfig { status: resolved_status(cfg, now, sold_amount), ..cfg };
            &&& resolved_status(once, now, sold_amount) == resolved_status(cfg, now, sold_amount)
            &&& (resolution_consistent(cfg, now, sold_amount) ==> resolution_consistent(
                once,
                now,
                sold_amount,
            ))
        }),
{
}

} // verus!
