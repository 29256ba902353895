//! Community curation and reward settlement ledger.
//!
//! Questions are submitted, voted on and finalized by curators; reputations
//! follow from curation outcomes; reward pools compute per-user eligibility
//! and settle claims exactly once per eligible amount; tournaments run
//! registration, timed play and prize checks on the same pattern. Every
//! operation validates against the records it is handed and either commits
//! all of its changes or returns a typed error with the records untouched.
//! Movements of value are returned as [`rewards::Transfer`] values for the
//! settlement layer to carry out, and the current time is passed in by the
//! caller.

pub mod curation;
pub mod distribution;
pub mod identity;
pub mod reputation;
pub mod rewards;
pub mod tournament;
