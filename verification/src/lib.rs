//! Accounting and state-transition core of a fixed-supply token presale.
//!
//! A creator opens a launch against one of five funding tiers; buyers deposit
//! base currency for a pro-rata share of the sellable token allocation; at the
//! tier deadline the launch resolves to `Succeed` (sold out exactly) or
//! `Failed` (buyers reclaim their deposits in proportion to the tokens they
//! return). The ledger that actually moves balances is an external
//! collaborator: this crate holds the arithmetic, the state machine, and the
//! monetary invariants, all verified.

pub mod creator_memecoin_counter;
pub mod errors;
pub mod fees;
pub mod global_config;
pub mod launch;
pub mod laws;
pub mod memecoin_config;
pub mod pricing;
pub mod resolver;
