//! Canonical results that the gateway hands to its boundary.

pub mod address;
pub mod governance;
pub mod masternode;
pub mod network;
pub mod transaction;
