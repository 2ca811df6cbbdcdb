//! A self-custodial savings vault: each owner controls a single account
//! record that tracks accumulated deposits and withdrawals, plus a
//! configurable round-up amount and an investment strategy tag consumed by
//! external processes.
//!
//! The crate is organised in three layers:
//! - [`vault`] holds the per-owner record and its state machine: the
//!   authorization and validity checks and the counter updates of deposit,
//!   withdraw and settings updates, each pinned to a specification-level
//!   transition function.
//! - [`ledger`] keys one record per owner and adds the exactly-once
//!   creation guard and the lookup that routes a request to its record.
//! - [`laws`] states and proves the global guarantees: the init-once guard,
//!   counter monotonicity, atomicity on failure, and authorization.

pub mod laws;
pub mod ledger;
pub mod vault;
