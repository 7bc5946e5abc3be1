//! Network-wide figures.

use vstd::prelude::*;
use crate::rpc::types::RpcMasternodeCount;

verus! {

/// Masternode totals, overall and by type.
#[derive(Debug, Clone, Copy, PartialEq, Eq, Structural)]
pub struct MasternodeCountInfo {
    pub total: u32,
    pub enabled: u32,
    pub regular_total: u32,
    pub regular_enabled: u32,
    pub evo_total: u32,
    pub evo_enabled: u32,
}

impl MasternodeCountInfo {
    /// The totals as the node counted them.
    pub fn from_rpc(count: &RpcMasternodeCount) -> (info: MasternodeCountInfo)
        ensures
            info == (MasternodeCountInfo {
                total: count.total,
                enabled: count.enabled,
                regular_total: count.detailed.regular.total,
                regular_enabled: count.detailed.regular.enabled,
                evo_total: count.detailed.evo.total,
                evo_enabled: count.detailed.evo.enabled,
            }),
    {
        MasternodeCountInfo {
            total: count.total,
            enabled: count.enabled,
            regular_total: count.detailed.regular.total,
            regular_enabled: count.detailed.regular.enabled,
            evo_total: count.detailed.evo.total,
            evo_enabled: count.detailed.evo.enabled,
        }
    }
}

} // verus!
