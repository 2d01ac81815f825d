//! The models into which the collector writes what it gathers.

pub mod logs;
pub mod metrics;
pub mod trace;
