//! Names of the transaction types, the payload that a special transaction
//! is shown with, and what counts as a coinbase transaction.

use vstd::prelude::*;
use vstd::string::*;
use crate::rpc::types::RpcTxInput;
use crate::text::{decimal_digits, u64_text};

verus! {

/// Name of a transaction type; a type without a name of its own is shown
/// as `Type` and its number.
pub open spec fn type_label_of(tx_type: u32) -> Seq<char> {
    if tx_type == 0 {
        "Standard"@
    } else if tx_type == 1 {
        "ProRegTx"@
    } else if tx_type == 2 {
        "ProUpServTx"@
    } else if tx_type == 3 {
        "ProUpRegTx"@
    } else if tx_type == 4 {
        "ProUpRevTx"@
    } else if tx_type == 5 {
        "CoinBase"@
    } else if tx_type == 6 {
        "QuorumCommitment"@
    } else if tx_type == 8 {
        "AssetLock"@
    } else if tx_type == 9 {
        "AssetUnlock"@
    } else {
        "Type "@ + decimal_digits(tx_type as nat)
    }
}

/// The name of a transaction type.
pub fn tx_type_label(tx_type: u32) -> (label: String)
    ensures
        label@ == type_label_of(tx_type),
{
    match tx_type {
        0 => String::from_str("Standard"),
        1 => String::from_str("ProRegTx"),
        2 => String::from_str("ProUpServTx"),
        3 => String::from_str("ProUpRegTx"),
        4 => String::from_str("ProUpRevTx"),
        5 => String::from_str("CoinBase"),
        6 => String::from_str("QuorumCommitment"),
        8 => String::from_str("AssetLock"),
        9 => String::from_str("AssetUnlock"),
        _ => {
            let mut label = String::from_str("Type ");
            let digits = u64_text(tx_type as u64);
            label.append(digits.as_str());
            label
        },
    }
}

/// The payloads that a special transaction can carry, in the order in
/// which they are looked for.
#[derive(Debug, Clone, Copy, PartialEq, Eq, Structural)]
pub enum SpecialPayload {
    ProRegTx,
    ProUpServTx,
    ProUpRegTx,
    ProUpRevTx,
    CbTx,
    QcTx,
    AssetUnlockTx,
}

/// Which payloads a transaction carries.
#[derive(Debug, Clone, Copy, PartialEq, Eq, Structural)]
pub struct PayloadPresence {
    pub pro_reg_tx: bool,
    pub pro_up_serv_tx: bool,
    pub pro_up_reg_tx: bool,
    pub pro_up_rev_tx: bool,
    pub cb_tx: bool,
    pub qc_tx: bool,
    pub asset_unlock_tx: bool,
}

/// The payload that a transaction is shown with: the first that it
/// carries, in the order of `SpecialPayload`; none if it carries none.
pub open spec fn shown_payload(p: PayloadPresence) -> Option<SpecialPayload> {
    if p.pro_reg_tx {
        Some(SpecialPayload::ProRegTx)
    } else if p.pro_up_serv_tx {
        Some(SpecialPayload::ProUpServTx)
    } else if p.pro_up_reg_tx {
        Some(SpecialPayload::ProUpRegTx)
    } else if p.pro_up_rev_tx {
        Some(SpecialPayload::ProUpRevTx)
    } else if p.cb_tx {
        Some(SpecialPayload::CbTx)
    } else if p.qc_tx {
        Some(SpecialPayload::QcTx)
    } else if p.asset_unlock_tx {
        Some(SpecialPayload::AssetUnlockTx)
    } else {
        None
    }
}

/// Chooses the payload that a transaction is shown with.
pub fn choose_payload(p: &PayloadPresence) -> (r: Option<SpecialPayload>)
    ensures
        r == shown_payload(*p),
{
    if p.pro_reg_tx {
        Some(SpecialPayload::ProRegTx)
    } else if p.pro_up_serv_tx {
        Some(SpecialPayload::ProUpServTx)
    } else if p.pro_up_reg_tx {
        Some(SpecialPayload::ProUpRegTx)
    } else if p.pro_up_rev_tx {
        Some(SpecialPayload::ProUpRevTx)
    } else if p.cb_tx {
        Some(SpecialPayload::CbTx)
    } else if p.qc_tx {
        Some(SpecialPayload::QcTx)
    } else if p.asset_unlock_tx {
        Some(SpecialPayload::AssetUnlockTx)
    } else {
        None
    }
}

/// Name of a payload.
pub open spec fn payload_label_of(payload: SpecialPayload) -> Seq<char> {
    match payload {
        SpecialPayload::ProRegTx => "ProRegTx"@,
        SpecialPayload::ProUpServTx => "ProUpServTx"@,
        SpecialPayload::ProUpRegTx => "ProUpRegTx"@,
        SpecialPayload::ProUpRevTx => "ProUpRevTx"@,
        SpecialPayload::CbTx => "CbTx"@,
        SpecialPayload::QcTx => "QcTx"@,
        SpecialPayload::AssetUnlockTx => "AssetUnlockTx"@,
    }
}

impl SpecialPayload {
    /// The name that the payload is shown under.
    pub fn label(self) -> (r: String)
        ensures
            r@ == payload_label_of(self),
    {
        match self {
            SpecialPayload::ProRegTx => String::from_str("ProRegTx"),
            SpecialPayload::ProUpServTx => String::from_str("ProUpServTx"),
            SpecialPayload::ProUpRegTx => String::from_str("ProUpRegTx"),
            SpecialPayload::ProUpRevTx => String::from_str("ProUpRevTx"),
            SpecialPayload::CbTx => String::from_str("CbTx"),
            SpecialPayload::QcTx => String::from_str("QcTx"),
            SpecialPayload::AssetUnlockTx => String::from_str("AssetUnlockTx"),
        }
    }
}

/// Whether any input of a transaction is a coinbase: such a transaction
/// has no total of inputs.
pub fn has_coinbase_input(inputs: &Vec<RpcTxInput>) -> (r: bool)
    ensures
        r == exists|i: int| 0 <= i < inputs@.len() && (#[trigger] inputs@[i]).coinbase is Some,
{
    let mut i: usize = 0;
    while i < inputs.len()
        invariant
            0 <= i <= inputs.len(),
            forall|k: int| 0 <= k < i ==> (#[trigger] inputs@[k]).coinbase is None,
        decreases inputs.len() - i,
    {
        if inputs[i].coinbase.is_some() {
            return true;
        }
        i = i + 1;
    }
    false
}

/// Whether a transaction is the coinbase of its block: its first input is
/// a coinbase.
pub fn is_coinbase(inputs: &Vec<RpcTxInput>) -> (r: bool)
    ensures
        r == (inputs@.len() > 0 && inputs@[0].coinbase is Some),
{
    if inputs.len() == 0 {
        false
    } else {
        inputs[0].coinbase.is_some()
    }
}

} // verus!
