//! A supervisor for independently named, long-running child processes:
//! starting them, tracking their lifecycle state, capturing their output
//! streams, stopping or killing them, and discovering the network port each
//! one listens on.

pub mod config;
pub mod numfmt;
pub mod output;
pub mod portscan;
pub mod registry;
pub mod signals;
pub mod sockets;
pub mod status;
pub mod supervisor;
pub mod table;
