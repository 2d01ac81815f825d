//! The decisions of the operator that reconciles model storages and the
//! bindings of models to them.

pub mod action;
pub mod ctx;
pub mod optimizer;
pub mod validator;
