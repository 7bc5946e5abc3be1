//! The decisions behind the gateway's endpoints, free of any transport.

pub mod addresses;
pub mod blocks;
pub mod days;
pub mod events;
pub mod governance;
pub mod insight;
pub mod masternodes;
pub mod search;
