//! Control-plane core for a fleet of remote agents: mutually authenticated
//! encrypted channels, a fault-tolerant multi-engine threat correlator, and a
//! permission-checked, signed, audited command-dispatch path.

pub mod agent_data;
pub mod analyzer;
pub mod certificate;
pub mod channel;
pub mod command_service;
pub mod crypto;
pub mod encryption;
pub mod secure_channel;
pub mod server;
