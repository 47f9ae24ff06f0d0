//! The socket that routes packets to nodes, and the relay client.

pub mod actor;
pub mod addr;
pub mod disco;
pub mod endpoints;
pub mod netinfo;
pub mod packets;
pub mod poll;
pub mod recv;
pub mod relay_client;
pub mod secrets;
pub mod send;
pub mod sock;
pub mod update_state;
