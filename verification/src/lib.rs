//! Read-facing gateway logic for a Dash full node: confirmation-aware caching,
//! chain-tip polling with a lag-aware event bus, and address aggregation.

pub mod api;
pub mod bus;
pub mod cache;
pub mod config;
pub mod error;
pub mod live;
pub mod models;
pub mod rpc;
pub mod text;
