//! A connection-level load balancer core: backend selection by round robin,
//! the parsing of its startup configuration, and the decisions of the accept
//! loop and of each relay. The socket work itself lives outside this crate.
pub mod config;
pub mod error;
pub mod laws;
pub mod relay;
pub mod selector;
