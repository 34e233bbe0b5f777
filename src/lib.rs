//! Keeps a DNS name's address records in step with the machine's public IP.
//!
//! The library holds the decisions: configuration defaults, IP literal
//! validation, the fallback walk over IP-echo services, the provider's
//! response envelope, record reconciliation and the polling schedule. The
//! network, the clock and the process signals are driven by the caller.
pub mod config;
pub mod ip;
pub mod resolver;
pub mod provider;
pub mod reconcile;
pub mod scheduler;
