//! Fleet-status library for a CI runner dashboard: aggregation of paged
//! runner listings with per-runner enrichment, pure view derivations over
//! the aggregated collection, and the interactive session state machine.

pub mod aggregate;
pub mod clock;
pub mod config;
pub mod models;
pub mod session;
pub mod text;
pub mod views;
