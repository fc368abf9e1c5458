//! A token-vesting accounting engine.
//!
//! The library tracks how much of a fixed token grant an employee has earned
//! over time and authorizes incremental withdrawal of the earned-but-unclaimed
//! portion from a pooled custody balance.  It is organized as three parts:
//!
//! * [`state`] — the records: a company grant pool, an employee vesting
//!   schedule, and the transfer order handed to the external ledger.
//! * [`vesting`] — the linear vesting curve and the claimable remainder,
//!   with fail-safe integer arithmetic that degrades to zero instead of
//!   faulting.
//! * [`registry`] — an in-memory registry that owns the records, enforces
//!   unique keys and authorization, and performs claim settlement atomically
//!   with respect to the external transfer's outcome.
//!
//! Token transfers, persistent storage, signature checks and the clock are
//! external collaborators: callers perform them and feed their outcomes back
//! in as plain values.

pub mod errors;
pub mod registry;
pub mod state;
pub mod vesting;
