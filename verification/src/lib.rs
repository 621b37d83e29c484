//! A discrete-event simulation of retry amplification in a client/backend
//! system under partial outages, with an admission-control token bucket
//! gating retries.
//!
//! The engine is a virtual-time scheduler (`sim`) that dispatches handlers
//! in non-decreasing ready-time order up to a horizon. The domain logic
//! (`model`) is a request lifecycle state machine riding on the engine:
//! each request targets a backend chosen round-robin, and on failure may be
//! admitted to exactly one backoff/retry by the token bucket
//! (`token_bucket`), with the outcomes tallied in named counters (`stats`).

pub mod model;
pub mod sim;
pub mod stats;
pub mod token_bucket;
