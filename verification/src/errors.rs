//! Error taxonomy of the presale core.

use vstd::prelude::*;

verus! {

/// Every way a presale operation can refuse to act.
///
/// Precondition errors (`StatusNotOngoing`, `SaleClosed`, `SaleNotYetResolvable`,
/// `ClaimsClosedOnSuccess`, `OnlyWrapSolWhenLaunchSuccess`) ask the caller to wait
/// or change the request; `AllocationExhausted` asks for a smaller deposit;
/// arithmetic errors (`Overflow`, `CalculationError`, `RefundTooSmall`) ask for
/// adjusted inputs; consistency errors (`InconsistentState`,
/// `InsufficientPoolBalance`) signal a bookkeeping fault; `InsufficientFunds` and
/// `InsufficientTokenBalance` mirror the external ledger's refusals.
#[derive(Clone, Copy, PartialEq, Eq, Structural, Debug)]
pub enum ErrorCode {
    StatusNotOngoing,
    SaleClosed,
    SaleNotYetResolvable,
    ClaimsClosedOnSuccess,
    OnlyWrapSolWhenLaunchSuccess,
    AllocationExhausted,
    Overflow,
    CalculationError,
    RefundTooSmall,
    InconsistentState,
    InsufficientPoolBalance,
    InsufficientFunds,
    InsufficientTokenBalance,
}

} // verus!
