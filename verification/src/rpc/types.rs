//! Payloads of the upstream node, reduced to the integer and text fields that
//! the gateway's logic reads. Amounts are in base units (1 coin = 100,000,000).

use vstd::prelude::*;

verus! {

/// A number with a fraction exactly as the node reported it: the bit
/// pattern of an IEEE-754 double. The library carries such numbers through
/// without reading them.
#[derive(Debug, Clone, Copy, PartialEq, Eq, Structural)]
pub struct NodeNumber {
    pub bits: u64,
}

// ------------------------------------------------------------------- blocks
/// Coinbase payload of a block.
#[derive(Debug, Clone, PartialEq, Eq)]
pub struct RpcCbTxPayload {
    pub version: u32,
    pub height: u64,
    pub merkle_root_mn_list: String,
    pub merkle_root_quorums: String,
    pub best_cl_height_diff: u64,
    pub best_cl_signature: String,
    pub credit_pool_balance: NodeNumber,
}

/// The transactions of a block as the node sent them. The node sends ids
/// at low verbosity and full transactions at high verbosity under one field;
/// which of the two was sent is settled once, when the block is read.
#[derive(Debug, Clone, PartialEq, Eq)]
pub enum BlockTxs {
    /// The field was missing, empty, or held something else.
    Absent,
    /// Transaction ids.
    Ids(Vec<String>),
    /// Full transactions.
    Full(Vec<RpcTransaction>),
}

/// The shape of a JSON value.
#[derive(Debug, Clone, Copy, PartialEq, Eq, Structural)]
pub enum JsonShape {
    Null,
    Bool,
    Number,
    Text,
    Array,
    Object,
}

/// How the transactions field of a block is to be read.
#[derive(Debug, Clone, Copy, PartialEq, Eq, Structural)]
pub enum TxsReading {
    /// As a list of ids.
    Ids,
    /// As a list of full transactions.
    Full,
    /// Not at all.
    Neither,
}

/// The reading that the first element of the field calls for: ids for a
/// text, full transactions for an object, none for anything else and for
/// a field without elements.
pub open spec fn reading_for(first: Option<JsonShape>) -> TxsReading {
    match first {
        Some(JsonShape::Text) => TxsReading::Ids,
        Some(JsonShape::Object) => TxsReading::Full,
        _ => TxsReading::Neither,
    }
}

/// Settles how the transactions field is read, by the shape of its first
/// element; `None` stands for a field that is missing, no list, or empty.
pub fn choose_reading(first: Option<JsonShape>) -> (r: TxsReading)
    ensures
        r == reading_for(first),
{
    match first {
        Some(JsonShape::Text) => TxsReading::Ids,
        Some(JsonShape::Object) => TxsReading::Full,
        _ => TxsReading::Neither,
    }
}

/// A block, or its header when `tx` is absent.
#[derive(Debug, Clone, PartialEq, Eq)]
pub struct RpcBlock {
    pub hash: String,
    pub confirmations: i64,
    pub height: u64,
    pub version: u32,
    pub version_hex: Option<String>,
    pub merkleroot: String,
    pub time: u64,
    pub mediantime: u64,
    pub nonce: u64,
    pub bits: String,
    pub difficulty: NodeNumber,
    pub chainwork: String,
    pub n_tx: u32,
    pub previous_block_hash: Option<String>,
    pub next_block_hash: Option<String>,
    pub chainlock: bool,
    pub size: Option<u64>,
    pub cb_tx: Option<RpcCbTxPayload>,
    pub tx: BlockTxs,
}

impl RpcBlock {
    /// The full transactions of the block, where the node sent them.
    pub fn transactions(&self) -> (r: Option<&Vec<RpcTransaction>>)
        ensures
            self.tx matches BlockTxs::Full(txs) ==> r == Some(&txs),
            !(self.tx is Full) ==> r is None,
    {
        match &self.tx {
            BlockTxs::Full(txs) => Some(txs),
            _ => None,
        }
    }

    /// The transaction ids of the block, where the node sent ids.
    pub fn txids(&self) -> (r: Option<&Vec<String>>)
        ensures
            self.tx matches BlockTxs::Ids(ids) ==> r == Some(&ids),
            !(self.tx is Ids) ==> r is None,
    {
        match &self.tx {
            BlockTxs::Ids(ids) => Some(ids),
            _ => None,
        }
    }
}

// ---------------------------------------------------------------- addresses
/// Balance summary of an address, in base units.
#[derive(Debug, Clone, PartialEq, Eq)]
pub struct RpcAddressBalance {
    pub balance: i64,
    pub balance_immature: i64,
    pub balance_spendable: i64,
    pub received: i64,
}

/// One entry of the node's delta index: a signed change of an address's
/// balance caused by one input or output of a transaction.
#[derive(Debug, Clone, PartialEq, Eq)]
pub struct RpcAddressDelta {
    pub satoshis: i64,
    pub txid: String,
    pub index: u32,
    pub blockindex: u32,
    pub height: u64,
    pub address: String,
}

/// One unspent output of an address.
#[derive(Debug, Clone, PartialEq, Eq)]
pub struct RpcAddressUtxo {
    pub address: String,
    pub txid: String,
    pub output_index: u32,
    pub script: String,
    pub satoshis: i64,
    pub height: u64,
}

// ------------------------------------------------------------- transactions
/// Unlocking script of an input.
#[derive(Debug, Clone, PartialEq, Eq)]
pub struct RpcScriptSig {
    pub script_asm: String,
    pub hex: String,
}

/// Locking script of an output.
#[derive(Debug, Clone, PartialEq, Eq)]
pub struct RpcScriptPubKey {
    pub script_asm: String,
    pub desc: Option<String>,
    pub hex: String,
    pub address: Option<String>,
    pub script_type: String,
}

/// One input of a transaction.
#[derive(Debug, Clone, PartialEq, Eq)]
pub struct RpcTxInput {
    pub txid: Option<String>,
    pub vout: Option<u32>,
    pub coinbase: Option<String>,
    pub script_sig: Option<RpcScriptSig>,
    pub value_sat: Option<i64>,
    pub address: Option<String>,
    pub sequence: u64,
}

/// One output of a transaction.
#[derive(Debug, Clone, PartialEq, Eq)]
pub struct RpcTxOutput {
    pub value_sat: i64,
    pub n: u32,
    pub script_pub_key: RpcScriptPubKey,
    pub spent_tx_id: Option<String>,
    pub spent_index: Option<u32>,
    pub spent_height: Option<i64>,
}

/// A transaction as far as balance computations read it.
#[derive(Debug, Clone, PartialEq, Eq)]
pub struct RpcTransaction {
    pub txid: String,
    pub tx_type: u32,
    pub vin: Vec<RpcTxInput>,
    pub vout: Vec<RpcTxOutput>,
    pub height: Option<u64>,
    pub confirmations: Option<i64>,
}

// -------------------------------------------------------------- masternodes
/// Network addresses of a masternode, by service.
#[derive(Debug, Clone, PartialEq, Eq)]
pub struct RpcAddresses {
    pub core_p2p: Option<Vec<String>>,
    pub platform_https: Option<Vec<String>>,
    pub platform_p2p: Option<Vec<String>>,
}

/// One entry of the node's masternode list.
#[derive(Debug, Clone, PartialEq, Eq)]
pub struct RpcMasternodeListEntry {
    pub pro_tx_hash: String,
    pub address: String,
    pub addresses: Option<RpcAddresses>,
    pub payee: String,
    pub status: String,
    pub mn_type: String,
    pub pose_penalty_score: u32,
    pub consecutive_payments: u32,
    pub lastpaidtime: u64,
    pub lastpaidblock: u64,
    pub owneraddress: String,
    pub votingaddress: String,
    pub collateraladdress: String,
    pub pubkeyoperator: String,
    pub platform_node_id: Option<String>,
    pub platform_p2p_port: Option<u16>,
    pub platform_http_port: Option<u16>,
}

/// Masternode totals of one type.
#[derive(Debug, Clone, Copy, PartialEq, Eq)]
pub struct RpcMnTypeCount {
    pub total: u32,
    pub enabled: u32,
}

/// Masternode totals by type.
#[derive(Debug, Clone, Copy, PartialEq, Eq)]
pub struct RpcMasternodeCountDetailed {
    pub regular: RpcMnTypeCount,
    pub evo: RpcMnTypeCount,
}

/// Masternode totals.
#[derive(Debug, Clone, Copy, PartialEq, Eq)]
pub struct RpcMasternodeCount {
    pub total: u32,
    pub enabled: u32,
    pub detailed: RpcMasternodeCountDetailed,
}

// ------------------------------------------------------------------ network
/// The best chain lock known to the node.
#[derive(Debug, Clone, PartialEq, Eq)]
pub struct RpcChainLock {
    pub blockhash: String,
    pub height: u64,
    pub signature: String,
    pub known_block: bool,
}

// --------------------------------------------------------------- governance
/// A governance object as the node lists it.
#[derive(Debug, Clone, PartialEq, Eq)]
pub struct RpcGovernanceObject {
    pub data_hex: String,
    pub data_string: String,
    pub hash: String,
    pub collateral_hash: String,
    pub object_type: u32,
    pub creation_time: u64,
    pub f_blockchain_validity: bool,
    pub is_valid_reason: String,
    pub f_cached_valid: bool,
    pub f_cached_funding: bool,
    pub f_cached_delete: bool,
    pub f_cached_endorsed: bool,
    pub absolute_yes_count: i32,
    pub yes_count: i32,
    pub no_count: i32,
    pub abstain_count: i32,
}

/// The node's governance figures.
#[derive(Debug, Clone, Copy, PartialEq, Eq, Structural)]
pub struct RpcGovernanceInfo {
    pub governanceminquorum: u32,
    pub proposalfee: NodeNumber,
    pub superblockcycle: u32,
    pub superblockmaturitywindow: u32,
    pub lastsuperblock: u64,
    pub nextsuperblock: u64,
    pub fundingthreshold: u32,
    pub governancebudget: NodeNumber,
}

/// What the data of a proposal holds.
#[derive(Debug, Clone, PartialEq, Eq)]
pub struct RpcProposalData {
    pub end_epoch: u64,
    pub name: String,
    pub payment_address: String,
    pub payment_amount: NodeNumber,
    pub start_epoch: u64,
    pub proposal_type: u32,
    pub url: String,
}

// ------------------------------------------------- special transactions
/// The commitment of a quorum.
#[derive(Debug, Clone, PartialEq, Eq)]
pub struct RpcQcCommitment {
    pub version: u32,
    pub llmq_type: u32,
    pub quorum_hash: String,
    pub quorum_index: u32,
    pub signers_count: u32,
    pub signers: String,
    pub valid_members_count: u32,
    pub valid_members: String,
    pub quorum_public_key: String,
    pub quorum_vvec_hash: String,
    pub quorum_sig: String,
    pub members_sig: String,
}

/// Payload of a quorum commitment transaction.
#[derive(Debug, Clone, PartialEq, Eq)]
pub struct RpcQcTxPayload {
    pub version: u32,
    pub height: u64,
    pub commitment: RpcQcCommitment,
}

/// Payload of an asset unlock transaction. The fee is in base units.
#[derive(Debug, Clone, PartialEq, Eq)]
pub struct RpcAssetUnlockTxPayload {
    pub version: u32,
    pub index: u64,
    pub fee: u64,
    pub requested_height: u64,
    pub quorum_hash: String,
    pub quorum_sig: String,
}

// ------------------------------------------------------ masternode detail
/// The state of a registered masternode.
#[derive(Debug, Clone, PartialEq, Eq)]
pub struct RpcMasternodeState {
    pub version: u32,
    pub service: String,
    pub addresses: Option<RpcAddresses>,
    pub registered_height: u64,
    pub last_paid_height: u64,
    pub consecutive_payments: u32,
    pub pose_penalty: u32,
    pub pose_revived_height: i64,
    pub pose_ban_height: i64,
    pub revocation_reason: u32,
    pub owner_address: String,
    pub voting_address: String,
    pub payout_address: String,
    pub pub_key_operator: String,
    pub platform_node_id: Option<String>,
    pub platform_p2p_port: Option<u16>,
    pub platform_http_port: Option<u16>,
}

/// What the node has noted about a masternode besides its state.
#[derive(Debug, Clone, PartialEq, Eq)]
pub struct RpcMasternodeMetaInfo {
    pub last_dsq: i64,
    pub mixing_tx_count: u32,
    pub outbound_attempt_count: u32,
    pub last_outbound_attempt: u64,
    pub last_outbound_attempt_elapsed: u64,
    pub last_outbound_success: u64,
    pub last_outbound_success_elapsed: u64,
    pub is_platform_banned: Option<bool>,
    pub platform_ban_height_updated: Option<u64>,
}

/// A registered masternode as the node describes it.
#[derive(Debug, Clone, PartialEq, Eq)]
pub struct RpcProtx {
    pub mn_type: String,
    pub pro_tx_hash: String,
    pub collateral_hash: String,
    pub collateral_index: u32,
    pub collateral_address: String,
    pub operator_reward: NodeNumber,
    pub state: RpcMasternodeState,
    pub confirmations: i64,
    pub meta_info: RpcMasternodeMetaInfo,
}

// ------------------------------------------------------------------ quorums
/// One member of a quorum.
#[derive(Debug, Clone, PartialEq, Eq)]
pub struct RpcQuorumMember {
    pub pro_tx_hash: String,
    pub service: Option<String>,
    pub addresses: Option<RpcAddresses>,
    pub pub_key_operator: Option<String>,
    pub valid: bool,
}

/// A quorum and, where the node gave them, its members.
#[derive(Debug, Clone, PartialEq, Eq)]
pub struct RpcQuorumInfo {
    pub height: u64,
    pub quorum_type: String,
    pub quorum_hash: String,
    pub quorum_index: u32,
    pub mined_block: String,
    pub quorum_public_key: String,
    pub members: Option<Vec<RpcQuorumMember>>,
}

} // verus!
