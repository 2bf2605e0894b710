//! Registry of EVM-compatible chains and a thin client handle built on an
//! HTTP JSON-RPC provider, with the selection and error rules verified.

pub mod backend;
pub mod chain;
pub mod client;
pub mod endpoint;
pub mod error;
pub mod registry_laws;
pub mod wallet;
