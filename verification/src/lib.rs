//! Confidential computation orchestration for a financial-risk protocol.
//!
//! A plaintext-visible request becomes a uniquely identified asynchronous job
//! handed to an external multi-party computation cluster; the job's single
//! callback is validated and consumed exactly once. The decision logic that
//! the cluster evaluates over decrypted record views (health factors, dark
//! pool matching, slippage and fairness checks, portfolio aggregation) lives
//! in [`circuits`] as pure functions with exact contracts.

pub mod circuits;
pub mod errors;
pub mod events;
pub mod ids;
pub mod orchestrator;
pub mod sema;
pub mod store;
