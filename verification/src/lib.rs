//! Verified core of a monitor for Blackmagic HyperDeck recorders.
pub mod id_map;
pub mod message;
pub mod monitor;
pub mod api;
pub mod storage;
pub mod panel;
pub mod node_process;
