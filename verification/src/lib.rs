//! Verified core of the dash data platform: the wire framing of pipe
//! messages, the storage model, and the decisions that the operator and the
//! storage provider take.

pub mod api;
pub mod ark;
pub mod collector;
pub mod function;
pub mod k8s;
pub mod message;
pub mod name;
pub mod operator;
pub mod provider;
pub mod provider_api;
pub mod schema;
pub mod python_function;
pub mod query;
pub mod sidecar;
pub mod storage_connector;
pub mod strmap;
pub mod text;
pub mod url;
