//! The shared core of the platform's programs: reading the environment,
//! results sent over the wire, signals, and the cluster's identity.

pub mod cluster;
pub mod env;
pub mod result;
pub mod signal;
