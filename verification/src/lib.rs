//! Dynamic-DNS updater logic: configuration validation, per-family
//! change detection for the host's public addresses, and construction
//! of DNS record update requests. The surrounding process performs the
//! actual discovery and API calls and feeds their results in as plain
//! values.

pub mod addr;
pub mod config;
pub mod request;
pub mod tracking;
