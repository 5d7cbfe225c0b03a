//! A parametric insurance ledger: policies issued against an escrowed
//! premium, and claims adjudicated against those policies.
//!
//! The library is the transactional core alone: entity records, the
//! premium formula, and the policy/claim state machine with its
//! authorization and ordering rules. The host that surrounds it supplies
//! the clock reading, the set of principals that authorized the current
//! operation, durable storage for the state, and the asset-transfer rail
//! that executes the payments this core decides on.

pub mod errors;
pub mod laws;
pub mod machine;
pub mod model;
pub mod types;
