//! Static security auditor for account-oriented smart-contract source.
//!
//! Three independent heuristic detectors inspect a modelled syntax tree and
//! the raw source text of each file, emit severity-ranked findings, and an
//! orchestrator merges them into one report.

pub mod accounts;
pub mod analyze;
pub mod cpi;
pub mod model;
pub mod pda;
pub mod report;
pub mod text;
