//! Block timestamp monitoring: per-chain statistics over the skew between a
//! block's claimed production time and the moment it was observed, the
//! gap-walking monitor that feeds them, and the reporting rows built from them.

pub mod clock;
pub mod config;
pub mod monitor;
pub mod orchestrator;
pub mod report;
pub mod rpc;
pub mod stats;
pub mod text;
