//! Challenge-response dispute protocol for pools of TEE-backed operators:
//! an operator registry with a chained epoch commitment, and per-pool
//! lifecycle state machines with bounded-time disputes.
pub mod hashing;
pub mod types;
pub mod manager;
pub mod laws;
