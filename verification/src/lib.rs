//! Unauthenticated reconnaissance of a domain's cloud identity footprint.
//!
//! The library holds the decisions of a scan: how a raw network outcome
//! becomes a verdict, how DNS answers and HTTP replies become report
//! entries, and in which order the probe groups run and merge. The
//! network itself is driven by the caller, who hands outcomes in and
//! takes requests out.

pub mod cli;
pub mod config;
pub mod error;
pub mod models;
pub mod output;
pub mod recon;
pub mod text;

pub use crate::config::CloudConfig;
pub use crate::error::ReconError;
pub use crate::models::ReconResults;
