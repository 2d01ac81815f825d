//! The custom resources of the platform and the rules on their fields.

pub mod job;
pub mod model_claim;
pub mod model_storage_binding;
pub mod model_user;
pub mod resources;
pub mod storage;
