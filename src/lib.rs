//! A single-room chat relay: the wire types, their line codec, the registry of
//! active users, and the decisions taken by each connection's command
//! processor and each user's broadcast forwarder.

pub mod client;
pub mod codec;
pub mod config;
pub mod forwarder;
pub mod laws;
pub mod processor;
pub mod registry;
pub mod types;
