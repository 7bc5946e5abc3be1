//! The snapshot of one address. Amounts are in base units; rendering them in
//! coins is the boundary's part.

use vstd::prelude::*;

verus! {

/// One row of an address's history: a transaction, the height of its block
/// and the net change of the address's balance that it caused.
#[derive(Debug, Clone, PartialEq, Eq)]
pub struct AddressTxEntry {
    pub txid: String,
    pub height: u64,
    pub delta_sat: i64,
}

/// One unspent output of the address.
#[derive(Debug, Clone, PartialEq, Eq)]
pub struct AddressUtxo {
    pub txid: String,
    pub output_index: u32,
    pub satoshis: i64,
    pub height: u64,
}

/// Balance, one page of history and the unspent outputs of an address.
/// Rebuilt from the node for every request.
#[derive(Debug, Clone, PartialEq, Eq)]
pub struct AddressInfo {
    pub address: String,
    pub balance_sat: i64,
    pub balance_immature_sat: i64,
    pub balance_spendable_sat: i64,
    pub total_received_sat: i64,
    pub tx_count: usize,
    pub transactions: Vec<AddressTxEntry>,
    pub utxos: Vec<AddressUtxo>,
}

} // verus!
