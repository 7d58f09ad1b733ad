//! Connection bookkeeping, metrics export and per-connection session logic
//! of a TCP tarpit.
pub mod export;
pub mod metrics;
pub mod session;
pub mod stats;
