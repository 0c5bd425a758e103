//! The peers of a node and the messages between them.

pub mod peer_manager;
pub mod peer_node_communication;
