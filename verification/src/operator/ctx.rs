//! The reconcilers, each a state machine from what is read of a resource
//! and the outcome of the last request to the next request.

pub mod model_storage_binding;
pub mod storage;
