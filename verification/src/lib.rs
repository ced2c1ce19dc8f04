//! Contributor-XP ledger and reward settlement engine.
//!
//! Tracks contributor activity ("XP") over sequential weekly epochs and
//! converts it into two reward assets: a pro-rata share of a fixed USDC
//! purse per epoch, and a supply-capped loyalty token ("SBT") that accrues
//! perpetually at a fixed XP-to-token ratio.
//!
//! This crate holds the bookkeeping core alone: record types, checked
//! arithmetic, and the state transition of every operation, each with a
//! verified contract. Authentication, account storage, token transfers and
//! the clock are the embedding runtime's concern; callers hand each
//! transition the records it names, the current time, and perform the
//! returned transfer or mint amount themselves.

pub mod config_ops;
pub mod constants;
pub mod contributors;
pub mod epochs;
pub mod errors;
pub mod laws;
pub mod math;
pub mod settlement;
pub mod state;
pub mod sync;
