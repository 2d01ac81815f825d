//! The storage provider: how the platform lays out and runs its own object
//! storage, and how it syncs the buckets of models between storages.

pub mod bucket;
pub mod client;
pub mod crypto;
pub mod job;
pub mod remote;
pub mod storage;
pub mod sync;
pub mod tenant;
