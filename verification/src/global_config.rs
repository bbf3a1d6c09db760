//! Process-wide, admin-controlled parameters read by the settlement paths.

use vstd::prelude::*;

use crate::fees::BPS_DENOMINATOR;

verus! {

/// Singleton configuration: the admin identity, the success fee in basis
/// points, and the account that collects it. Created once at deployment;
/// mutated only through admin-gated paths outside this core.
#[derive(Clone, Copy, PartialEq, Eq, Structural, Debug)]
pub struct GlobalConfig {
    pub admin: u64,
    pub launch_success_fee_bps: u16,
    pub launch_success_fee_receiver: u64,
}

impl GlobalConfig {
    /// Well-formedness: the success fee never exceeds 100%.
    pub open spec fn wf(self) -> bool {
        self.launch_success_fee_bps <= BPS_DENOMINATOR
    }

    /// Builds the singleton with a fee rate of at most 10000 basis points.
    pub fn new(admin: u64, launch_success_fee_bps: u16, launch_success_fee_receiver: u64) -> (r:
        GlobalConfig)
        requires
            launch_success_fee_bps <= BPS_DENOMINATOR,
        ensures
            r == (GlobalConfig { admin, launch_success_fee_bps, launch_success_fee_receiver }),
            r.wf(),
    {
        GlobalConfig { admin, launch_success_fee_bps, launch_success_fee_receiver }
    }
}

} // verus!
