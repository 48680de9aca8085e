//! A LAN agent that pairs a local forward proxy with a remote controller:
//! the controller registers the agent over a small admin API, the agent
//! keeps a reverse SSH tunnel alive under a supervisor, and the proxy
//! installs per-host routes before dialling out.
//!
//! This crate holds the verified core: the decision logic, codecs and
//! state machines. The runtime shell (servers, child processes, DNS
//! lookups) lives outside and calls in with plain values.

pub mod admin;
pub mod digest;
pub mod dns_cache;
pub mod net;
pub mod pass;
pub mod ping;
pub mod proxy;
pub mod remove_routes;
pub mod ssh;
pub mod text;
pub mod util;
