//! Address aggregation: one page of an address's history with the net change
//! per transaction, its balance, and its unspent outputs.
//!
//! The net changes come from one of two sources, chosen by the number of
//! transactions of the address: the node's delta index, fetched once, or the
//! page's transactions, fetched one by one. Above a second threshold the
//! unspent outputs are left out.

use vstd::prelude::*;
use crate::error::AppError;
use crate::models::address::{AddressInfo, AddressTxEntry, AddressUtxo};
use crate::rpc::types::{
    RpcAddressBalance, RpcAddressDelta, RpcAddressUtxo, RpcTransaction, RpcTxInput, RpcTxOutput,
};

verus! {

/// Page asked for when the request names none.
pub const DEFAULT_PAGE: u32 = 1;

/// Page size used when the request names none.
pub const DEFAULT_PAGE_SIZE: u32 = 50;

/// Largest page size served.
pub const MAX_PAGE_SIZE: u32 = 200;

/// Largest number of transactions for which the delta index is fetched.
pub const BULK_DELTA_MAX_TXS: usize = 10_000;

/// Largest number of transactions for which unspent outputs are fetched.
pub const UTXO_MAX_TXS: usize = 50_000;

/// Paging of an address request as the client sent it.
#[derive(Debug, Clone, Copy, PartialEq, Eq)]
pub struct AddressParams {
    pub page: Option<u32>,
    pub limit: Option<u32>,
}

/// The page that a request means: the one it names, at least the first.
pub open spec fn effective_page(page: Option<u32>) -> u32 {
    match page {
        Some(p) => if p >= 1 {
            p
        } else {
            1
        },
        None => DEFAULT_PAGE,
    }
}

/// The page size that a request means: the one it names, at most
/// `MAX_PAGE_SIZE`.
pub open spec fn effective_limit(limit: Option<u32>) -> u32 {
    match limit {
        Some(l) => if l <= MAX_PAGE_SIZE {
            l
        } else {
            MAX_PAGE_SIZE
        },
        None => DEFAULT_PAGE_SIZE,
    }
}

impl AddressParams {
    /// The page meant, counted from one.
    pub fn page(&self) -> (p: u32)
        ensures
            p == effective_page(self.page),
            p >= 1,
    {
        match self.page {
            Some(p) => if p >= 1 {
                p
            } else {
                1
            },
            None => DEFAULT_PAGE,
        }
    }

    /// The page size meant.
    pub fn limit(&self) -> (l: u32)
        ensures
            l == effective_limit(self.limit),
            l <= MAX_PAGE_SIZE,
    {
        match self.limit {
            Some(l) => if l <= MAX_PAGE_SIZE {
                l
            } else {
                MAX_PAGE_SIZE
            },
            None => DEFAULT_PAGE_SIZE,
        }
    }
}

/// Page `page` (counted from one) of `all` taken newest first: `all` is in
/// the node's order, oldest first, so the page is read from its end.
pub open spec fn recent_page_of<T>(all: Seq<T>, page: int, limit: int) -> Seq<T> {
    let start = (page - 1) * limit;
    if start >= all.len() {
        Seq::empty()
    } else if start + limit <= all.len() {
        all.reverse().subrange(start, start + limit)
    } else {
        all.reverse().subrange(start, all.len() as int)
    }
}

/// Cuts page `page` of size `limit` out of the ids of an address, newest
/// first.
pub fn recent_page(all: &Vec<String>, page: u32, limit: u32) -> (out: Vec<String>)
    requires
        page >= 1,
    ensures
        out@ == recent_page_of(all@, page as int, limit as int),
        out@.len() <= limit,
{
    let len: u64 = all.len() as u64;
    assert((page - 1) * limit <= 0xffff_ffff * 0xffff_ffff) by (nonlinear_arith)
        requires
            0 <= page - 1 <= 0xffff_ffff,
            0 <= limit <= 0xffff_ffff,
    ;
    let start: u64 = (page - 1) as u64 * (limit as u64);
    let mut out: Vec<String> = Vec::new();
    if start >= len {
        return out;
    }
    let end: u64 = if start + limit as u64 <= len {
        start + limit as u64
    } else {
        len
    };
    let mut j: u64 = start;
    while j < end
        invariant
            start <= j <= end <= len,
            len == all.len(),
            out@ == all@.reverse().subrange(start as int, j as int),
        decreases end - j,
    {
        let at: usize = (len - 1 - j) as usize;
        out.push(all[at].clone());
        assert(out@ =~= all@.reverse().subrange(start as int, j as int + 1));
        j = j + 1;
    }
    out
}

/// Where the net changes of a page come from.
#[derive(Debug, Clone, Copy, PartialEq, Eq, Structural)]
pub enum DeltaStrategy {
    /// The address's whole delta index, fetched once.
    Bulk,
    /// The page's transactions, fetched one by one.
    PerTransaction,
}

/// The strategy for an address with `tx_count` transactions.
pub open spec fn strategy_for(tx_count: nat) -> DeltaStrategy {
    if tx_count <= BULK_DELTA_MAX_TXS {
        DeltaStrategy::Bulk
    } else {
        DeltaStrategy::PerTransaction
    }
}

/// Chooses the strategy by the number of transactions of the address.
pub fn choose_strategy(tx_count: usize) -> (s: DeltaStrategy)
    ensures
        s == strategy_for(tx_count as nat),
{
    if tx_count <= BULK_DELTA_MAX_TXS {
        DeltaStrategy::Bulk
    } else {
        DeltaStrategy::PerTransaction
    }
}

/// Whether unspent outputs are fetched for an address with `tx_count`
/// transactions.
pub open spec fn utxos_wanted(tx_count: nat) -> bool {
    tx_count <= UTXO_MAX_TXS
}

/// Decides whether to fetch the unspent outputs.
pub fn wants_utxos(tx_count: usize) -> (w: bool)
    ensures
        w == utxos_wanted(tx_count as nat),
{
    tx_count <= UTXO_MAX_TXS
}

/// Sum of a sequence of amounts.
pub open spec fn total(amounts: Seq<int>) -> int {
    amounts.fold_left(0int, |acc: int, x: int| acc + x)
}

/// The value nearest to `v` that fits in 64 bits.
pub open spec fn saturated(v: int) -> i64 {
    if v > i64::MAX {
        i64::MAX
    } else if v < i64::MIN {
        i64::MIN
    } else {
        v as i64
    }
}

/// The changes that the delta index records for one transaction, in the
/// order of the index.
pub open spec fn index_flows(deltas: Seq<RpcAddressDelta>, txid: Seq<char>) -> Seq<int>
    decreases deltas.len(),
{
    if deltas.len() == 0 {
        Seq::empty()
    } else if deltas.last().txid@ == txid {
        index_flows(deltas.drop_last(), txid).push(deltas.last().satoshis as int)
    } else {
        index_flows(deltas.drop_last(), txid)
    }
}

/// Height that the delta index gives for a transaction: that of its first
/// entry for the transaction, if it has one.
pub open spec fn index_height(deltas: Seq<RpcAddressDelta>, txid: Seq<char>) -> Option<u64>
    decreases deltas.len(),
{
    if deltas.len() == 0 {
        None
    } else {
        match index_height(deltas.drop_last(), txid) {
            Some(h) => Some(h),
            None => if deltas.last().txid@ == txid {
                Some(deltas.last().height)
            } else {
                None
            },
        }
    }
}

/// The row of a transaction by the delta index: the sum of its entries and
/// the height of the first of them; zero for both without an entry.
pub open spec fn bulk_entry(deltas: Seq<RpcAddressDelta>, txid: String) -> AddressTxEntry {
    AddressTxEntry {
        txid,
        height: match index_height(deltas, txid@) {
            Some(h) => h,
            None => 0,
        },
        delta_sat: saturated(total(index_flows(deltas, txid@))),
    }
}

/// What the outputs of a transaction pay to an address, in output order.
pub open spec fn output_flows(outputs: Seq<RpcTxOutput>, address: Seq<char>) -> Seq<int>
    decreases outputs.len(),
{
    if outputs.len() == 0 {
        Seq::empty()
    } else if pays_to(outputs.last(), address) {
        output_flows(outputs.drop_last(), address).push(outputs.last().value_sat as int)
    } else {
        output_flows(outputs.drop_last(), address)
    }
}

/// Whether an output pays to the address.
pub open spec fn pays_to(output: RpcTxOutput, address: Seq<char>) -> bool {
    output.script_pub_key.address matches Some(a) && a@ == address
}

/// Whether an input spends from the address.
pub open spec fn spends_from(input: RpcTxInput, address: Seq<char>) -> bool {
    input.address matches Some(a) && a@ == address
}

/// Amount that an input spends; zero when the node gave none.
pub open spec fn spent_amount(input: RpcTxInput) -> int {
    match input.value_sat {
        Some(v) => v as int,
        None => 0,
    }
}

/// What the inputs of a transaction take from an address, in input order,
/// each as a negative change.
pub open spec fn input_flows(inputs: Seq<RpcTxInput>, address: Seq<char>) -> Seq<int>
    decreases inputs.len(),
{
    if inputs.len() == 0 {
        Seq::empty()
    } else if spends_from(inputs.last(), address) {
        input_flows(inputs.drop_last(), address).push(-spent_amount(inputs.last()))
    } else {
        input_flows(inputs.drop_last(), address)
    }
}

/// Net change of an address's balance by a transaction: the sum of its
/// outputs to the address minus the sum of its inputs from the address.
pub open spec fn tx_delta(tx: RpcTransaction, address: Seq<char>) -> int {
    total(output_flows(tx.vout@, address)) + total(input_flows(tx.vin@, address))
}

/// The row of a transaction by its own inputs and outputs. A transaction
/// that could not be fetched gets a row of zeros.
pub open spec fn per_tx_entry(fetched: Option<RpcTransaction>, txid: String, address: Seq<char>) -> AddressTxEntry {
    match fetched {
        Some(tx) => AddressTxEntry {
            txid,
            height: match tx.height {
                Some(h) => h,
                None => 0,
            },
            delta_sat: saturated(tx_delta(tx, address)),
        },
        None => AddressTxEntry { txid, height: 0, delta_sat: 0 },
    }
}

proof fn lemma_total_push(amounts: Seq<int>, x: int)
    ensures
        total(amounts.push(x)) == total(amounts) + x,
{
    assert(amounts.push(x).drop_last() =~= amounts);
}

fn clamp(v: i128) -> (r: i64)
    ensures
        r == saturated(v as int),
{
    if v > i64::MAX as i128 {
        i64::MAX
    } else if v < i64::MIN as i128 {
        i64::MIN
    } else {
        v as i64
    }
}

/// Computes the row of `txid` from the delta index.
pub fn bulk_row(deltas: &Vec<RpcAddressDelta>, txid: &String) -> (row: AddressTxEntry)
    ensures
        row == bulk_entry(deltas@, *txid),
{
    let mut sum: i128 = 0;
    let mut height: Option<u64> = None;
    let mut i: usize = 0;
    assert(deltas@.take(0) =~= Seq::<RpcAddressDelta>::empty());
    while i < deltas.len()
        invariant
            0 <= i <= deltas.len(),
            sum as int == total(index_flows(deltas@.take(i as int), txid@)),
            -(i as int) * 0x8000_0000_0000_0000 <= sum as int <= (i as int)
                * 0x8000_0000_0000_0000,
            height == index_height(deltas@.take(i as int), txid@),
        decreases deltas.len() - i,
    {
        let ghost before = deltas@.take(i as int);
        let ghost upto = deltas@.take(i as int + 1);
        assert(upto.drop_last() =~= before);
        assert(upto.last() == deltas@[i as int]);
        let d = &deltas[i];
        if d.txid == *txid {
            proof {
                lemma_total_push(index_flows(before, txid@), d.satoshis as int);
            }
            sum = sum + d.satoshis as i128;
            if height.is_none() {
                height = Some(d.height);
            }
        }
        i = i + 1;
    }
    assert(deltas@.take(deltas.len() as int) =~= deltas@);
    AddressTxEntry {
        txid: txid.clone(),
        height: match height {
            Some(h) => h,
            None => 0,
        },
        delta_sat: clamp(sum),
    }
}

/// The rows of a page by the delta index, one per id of the page in the
/// page's order. Entries of the index for other transactions are ignored.
pub fn bulk_rows(page: &Vec<String>, deltas: &Vec<RpcAddressDelta>) -> (rows: Vec<AddressTxEntry>)
    ensures
        rows@.len() == page@.len(),
        forall|j: int| 0 <= j < page@.len() ==> rows@[j] == bulk_entry(deltas@, page@[j]),
{
    let mut rows: Vec<AddressTxEntry> = Vec::new();
    let mut j: usize = 0;
    while j < page.len()
        invariant
            0 <= j <= page.len(),
            rows@.len() == j,
            forall|k: int| 0 <= k < j ==> rows@[k] == bulk_entry(deltas@, page@[k]),
        decreases page.len() - j,
    {
        rows.push(bulk_row(deltas, &page[j]));
        j = j + 1;
    }
    rows
}

/// Computes the net change of `address` by `tx`, saturated to 64 bits.
pub fn net_change(tx: &RpcTransaction, address: &String) -> (delta: i64)
    ensures
        delta == saturated(tx_delta(*tx, address@)),
{
    let mut paid: i128 = 0;
    let mut i: usize = 0;
    assert(tx.vout@.take(0) =~= Seq::<RpcTxOutput>::empty());
    while i < tx.vout.len()
        invariant
            0 <= i <= tx.vout.len(),
            paid as int == total(output_flows(tx.vout@.take(i as int), address@)),
            -(i as int) * 0x8000_0000_0000_0000 <= paid as int <= (i as int)
                * 0x8000_0000_0000_0000,
        decreases tx.vout.len() - i,
    {
        let ghost before = tx.vout@.take(i as int);
        let ghost upto = tx.vout@.take(i as int + 1);
        assert(upto.drop_last() =~= before);
        assert(upto.last() == tx.vout@[i as int]);
        let output = &tx.vout[i];
        let hit = match &output.script_pub_key.address {
            Some(a) => *a == *address,
            None => false,
        };
        if hit {
            proof {
                lemma_total_push(output_flows(before, address@), output.value_sat as int);
            }
            paid = paid + output.value_sat as i128;
        }
        i = i + 1;
    }
    assert(tx.vout@.take(tx.vout.len() as int) =~= tx.vout@);
    let mut taken: i128 = 0;
    let mut k: usize = 0;
    assert(tx.vin@.take(0) =~= Seq::<RpcTxInput>::empty());
    while k < tx.vin.len()
        invariant
            0 <= k <= tx.vin.len(),
            taken as int == total(input_flows(tx.vin@.take(k as int), address@)),
            -(k as int) * 0x8000_0000_0000_0000 <= taken as int <= (k as int)
                * 0x8000_0000_0000_0000,
        decreases tx.vin.len() - k,
    {
        let ghost before = tx.vin@.take(k as int);
        let ghost upto = tx.vin@.take(k as int + 1);
        assert(upto.drop_last() =~= before);
        assert(upto.last() == tx.vin@[k as int]);
        let input = &tx.vin[k];
        let hit = match &input.address {
            Some(a) => *a == *address,
            None => false,
        };
        if hit {
            let amount: i64 = match input.value_sat {
                Some(v) => v,
                None => 0,
            };
            proof {
                lemma_total_push(input_flows(before, address@), -(amount as int));
            }
            taken = taken - amount as i128;
        }
        k = k + 1;
    }
    assert(tx.vin@.take(tx.vin.len() as int) =~= tx.vin@);
    match paid.checked_add(taken) {
        Some(sum) => clamp(sum),
        None => if paid >= 0 {
            i64::MAX
        } else {
            i64::MIN
        },
    }
}

/// The result of fetching the transaction of row `j`: `fetched[j]`, and a
/// failure where `fetched` has no such place.
pub open spec fn fetched_at(fetched: Seq<Option<RpcTransaction>>, j: int) -> Option<
    RpcTransaction,
> {
    if 0 <= j < fetched.len() {
        fetched[j]
    } else {
        None
    }
}

/// The rows of a page by the page's own transactions, one per id of the
/// page in the page's order; `fetched[j]` is what fetching the `j`-th
/// transaction gave. A failed fetch degrades its row to zeros and leaves
/// the other rows alone.
pub fn per_tx_rows(
    page: &Vec<String>,
    fetched: &Vec<Option<RpcTransaction>>,
    address: &String,
) -> (rows: Vec<AddressTxEntry>)
    ensures
        rows@.len() == page@.len(),
        forall|j: int|
            0 <= j < page@.len() ==> rows@[j] == per_tx_entry(
                fetched_at(fetched@, j),
                page@[j],
                address@,
            ),
{
    let mut rows: Vec<AddressTxEntry> = Vec::new();
    let mut j: usize = 0;
    while j < page.len()
        invariant
            0 <= j <= page.len(),
            rows@.len() == j,
            forall|k: int|
                0 <= k < j ==> rows@[k] == per_tx_entry(
                    fetched_at(fetched@, k),
                    page@[k],
                    address@,
                ),
        decreases page.len() - j,
    {
        let txid = page[j].clone();
        let row = if j < fetched.len() {
            match &fetched[j] {
                Some(tx) => AddressTxEntry {
                    txid,
                    height: match tx.height {
                        Some(h) => h,
                        None => 0,
                    },
                    delta_sat: net_change(tx, address),
                },
                None => AddressTxEntry { txid, height: 0, delta_sat: 0 },
            }
        } else {
            AddressTxEntry { txid, height: 0, delta_sat: 0 }
        };
        rows.push(row);
        j = j + 1;
    }
    rows
}

/// An unspent output as the snapshot shows it.
pub open spec fn utxo_of(raw: RpcAddressUtxo) -> AddressUtxo {
    AddressUtxo {
        txid: raw.txid,
        output_index: raw.output_index,
        satoshis: raw.satoshis,
        height: raw.height,
    }
}

/// Converts the node's unspent outputs, keeping their order.
pub fn utxo_list(raw: &Vec<RpcAddressUtxo>) -> (out: Vec<AddressUtxo>)
    ensures
        out@.len() == raw@.len(),
        forall|i: int| 0 <= i < raw@.len() ==> out@[i] == utxo_of(raw@[i]),
{
    let mut out: Vec<AddressUtxo> = Vec::new();
    let mut i: usize = 0;
    while i < raw.len()
        invariant
            0 <= i <= raw.len(),
            out@.len() == i,
            forall|k: int| 0 <= k < i ==> out@[k] == utxo_of(raw@[k]),
        decreases raw.len() - i,
    {
        let u = &raw[i];
        out.push(
            AddressUtxo {
                txid: u.txid.clone(),
                output_index: u.output_index,
                satoshis: u.satoshis,
                height: u.height,
            },
        );
        i = i + 1;
    }
    out
}

/// An address request after its first round of fetches: what is known, and
/// what has to be fetched next.
#[derive(Debug, Clone, PartialEq, Eq)]
pub struct AddressRequest {
    pub address: String,
    pub balance: RpcAddressBalance,
    /// Number of transactions of the address.
    pub tx_count: usize,
    /// The ids of the page asked for, newest first.
    pub page_txids: Vec<String>,
    /// Where the page's net changes are to come from.
    pub strategy: DeltaStrategy,
    /// Whether the unspent outputs are to be fetched.
    pub fetch_utxos: bool,
}

/// Takes up an address request once the balance and the ids of the address
/// have been asked for. A failure of either is the failure of the request,
/// that of the balance first. Otherwise the page is cut out and the next
/// fetches are decided by the number of transactions.
pub fn begin_address(
    address: String,
    params: &AddressParams,
    balance: Result<RpcAddressBalance, AppError>,
    txids: Result<Vec<String>, AppError>,
) -> (r: Result<AddressRequest, AppError>)
    ensures
        balance matches Err(e) ==> r == Err::<AddressRequest, AppError>(e),
        balance is Ok ==> (txids matches Err(e) ==> r == Err::<AddressRequest, AppError>(e)),
        balance matches Ok(b) ==> (txids matches Ok(all) ==> (r matches Ok(req) && {
            &&& req.address == address
            &&& req.balance == b
            &&& req.tx_count == all@.len()
            &&& req.page_txids@ == recent_page_of(
                all@,
                effective_page(params.page) as int,
                effective_limit(params.limit) as int,
            )
            &&& req.strategy == strategy_for(all@.len())
            &&& req.fetch_utxos == utxos_wanted(all@.len())
        })),
{
    let balance = match balance {
        Ok(b) => b,
        Err(e) => {
            return Err(e);
        },
    };
    let all = match txids {
        Ok(all) => all,
        Err(e) => {
            return Err(e);
        },
    };
    let tx_count = all.len();
    let page_txids = recent_page(&all, params.page(), params.limit());
    Ok(
        AddressRequest {
            address,
            balance,
            tx_count,
            page_txids,
            strategy: choose_strategy(tx_count),
            fetch_utxos: wants_utxos(tx_count),
        },
    )
}

/// What the second round of fetches gave for the rows of the page.
pub enum RowSource {
    /// The outcome of fetching the delta index.
    Index(Result<Vec<RpcAddressDelta>, AppError>),
    /// The outcome of fetching each transaction of the page, in the page's
    /// order; `None` for a fetch that failed.
    Transactions(Vec<Option<RpcTransaction>>),
}

/// The error, if any, with which a request ends in its second round: a
/// failure to fetch the delta index, else a failure to fetch the unspent
/// outputs where they were wanted.
pub open spec fn second_round_error(
    req: AddressRequest,
    rows: RowSource,
    utxos: Option<Result<Vec<RpcAddressUtxo>, AppError>>,
) -> Option<AppError> {
    match rows {
        RowSource::Index(Err(e)) => Some(e),
        _ => match utxos {
            Some(Err(e)) => if req.fetch_utxos {
                Some(e)
            } else {
                None
            },
            _ => None,
        },
    }
}

/// Assembles the snapshot from the second round of fetches.
///
/// A failure to fetch the delta index fails the request, and so does a
/// failure to fetch the unspent outputs where they were wanted. Otherwise
/// the balance is taken over as it is, the rows are computed from the
/// source given, and the unspent outputs are those fetched, or none where
/// they were not wanted or not fetched.
pub fn finish_address(
    req: AddressRequest,
    rows: RowSource,
    utxos: Option<Result<Vec<RpcAddressUtxo>, AppError>>,
) -> (r: Result<AddressInfo, AppError>)
    ensures
        second_round_error(req, rows, utxos) matches Some(e) ==> r == Err::<AddressInfo, AppError>(e),
        second_round_error(req, rows, utxos) is None ==> (r matches Ok(info) && {
            &&& info.address == req.address
            &&& info.balance_sat == req.balance.balance
            &&& info.balance_immature_sat == req.balance.balance_immature
            &&& info.balance_spendable_sat == req.balance.balance_spendable
            &&& info.total_received_sat == req.balance.received
            &&& info.tx_count == req.tx_count
            &&& info.transactions@.len() == req.page_txids@.len()
            &&& forall|j: int|
                0 <= j < req.page_txids@.len() ==> info.transactions@[j] == (match rows {
                    RowSource::Index(Ok(deltas)) => bulk_entry(deltas@, req.page_txids@[j]),
                    RowSource::Index(Err(_)) => arbitrary(),
                    RowSource::Transactions(fetched) => per_tx_entry(
                        fetched_at(fetched@, j),
                        req.page_txids@[j],
                        req.address@,
                    ),
                })
            &&& utxos matches Some(Ok(raw)) ==> (req.fetch_utxos ==> {
                &&& info.utxos@.len() == raw@.len()
                &&& forall|i: int| 0 <= i < raw@.len() ==> info.utxos@[i] == utxo_of(raw@[i])
            })
            &&& !(req.fetch_utxos && utxos is Some) ==> info.utxos@.len() == 0
        }),
{
    let transactions = match &rows {
        RowSource::Index(Ok(deltas)) => bulk_rows(&req.page_txids, deltas),
        RowSource::Index(Err(e)) => {
            return Err(e.duplicate());
        },
        RowSource::Transactions(fetched) => per_tx_rows(&req.page_txids, fetched, &req.address),
    };
    let unspent: Vec<AddressUtxo> = if req.fetch_utxos {
        match &utxos {
            Some(Ok(raw)) => utxo_list(raw),
            Some(Err(e)) => {
                return Err(e.duplicate());
            },
            None => Vec::new(),
        }
    } else {
        Vec::new()
    };
    Ok(
        AddressInfo {
            address: req.address,
            balance_sat: req.balance.balance,
            balance_immature_sat: req.balance.balance_immature,
            balance_spendable_sat: req.balance.balance_spendable,
            total_received_sat: req.balance.received,
            tx_count: req.tx_count,
            transactions,
            utxos: unspent,
        },
    )
}

proof fn lemma_total_concat(a: Seq<int>, b: Seq<int>)
    ensures
        total(a + b) == total(a) + total(b),
    decreases b.len(),
{
    if b.len() == 0 {
        assert(a + b =~= a);
    } else {
        lemma_total_concat(a, b.drop_last());
        assert((a + b).drop_last() =~= a + b.drop_last());
        assert((a + b).last() == b.last());
    }
}

/// The two strategies agree. Where the delta index records for a
/// transaction exactly the changes that the transaction's own outputs to
/// the address and inputs from the address amount to, in whatever order,
/// the row by the index and the row by the transaction carry the same net
/// change: the sum of the outputs to the address minus the sum of the
/// inputs from it.
pub proof fn lemma_strategies_agree(
    deltas: Seq<RpcAddressDelta>,
    tx: RpcTransaction,
    address: Seq<char>,
)
    requires
        index_flows(deltas, tx.txid@).to_multiset() == (output_flows(tx.vout@, address)
            + input_flows(tx.vin@, address)).to_multiset(),
    ensures
        total(index_flows(deltas, tx.txid@)) == tx_delta(tx, address),
        bulk_entry(deltas, tx.txid).delta_sat == per_tx_entry(
            Some(tx),
            tx.txid,
            address,
        ).delta_sat,
{
    let plus = |acc: int, x: int| acc + x;
    let by_index = index_flows(deltas, tx.txid@);
    let by_tx = output_flows(tx.vout@, address) + input_flows(tx.vin@, address);
    assert(vstd::seq_lib::commutative_foldl(plus));
    vstd::seq_lib::lemma_fold_left_permutation(by_index, by_tx, plus, 0int);
    lemma_total_concat(output_flows(tx.vout@, address), input_flows(tx.vin@, address));
}

/// Pagination boundary. An address with no more transactions than fit on
/// one page shows all of them on the first page, newest first, and none
/// on any later page.
pub proof fn lemma_single_page_holds_all<T>(all: Seq<T>, page: int, limit: int)
    requires
        page >= 1,
        limit >= 1,
        all.len() <= limit,
    ensures
        page == 1 ==> recent_page_of(all, page, limit) == all.reverse(),
        page >= 2 ==> recent_page_of(all, page, limit) == Seq::<T>::empty(),
{
    if page == 1 {
        if all.len() > 0 {
            assert(all.reverse().subrange(0, all.len() as int) =~= all.reverse());
        } else {
            assert(all.reverse() =~= Seq::<T>::empty());
        }
    } else {
        assert((page - 1) * limit >= limit) by (nonlinear_arith)
            requires
                page >= 2,
                limit >= 1,
        ;
    }
}

} // verus!
