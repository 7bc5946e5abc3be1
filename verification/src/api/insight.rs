//! The decisions behind the Insight-compatible endpoints: which status
//! query is meant, how lists of addresses are read, how ids of several
//! addresses are merged, and which slice of a list a request shows.

use vstd::prelude::*;
use vstd::string::*;
use crate::rpc::types::RpcAddressBalance;
use crate::text::{chars_of, fields_of, same_text, split_fields, texts, trim, trimmed};

verus! {

/// Transactions on one page of a transaction list.
pub const TXS_PER_PAGE: usize = 10;

/// Largest number of ids that an address summary lists.
pub const ADDR_TX_LIST_MAX: u32 = 50;

/// Largest number of blocks that a day's list shows.
pub const BLOCKS_PER_DAY_MAX: u32 = 200;

/// Number of blocks that a fee estimate looks ahead when the request names
/// none.
pub const DEFAULT_FEE_BLOCKS: u32 = 2;

// ------------------------------------------------------------- parameters
/// Query of a day's block list.
#[derive(Debug, Clone, PartialEq, Eq)]
pub struct BlocksParams {
    pub limit: Option<u32>,
    pub block_date: Option<String>,
}

impl BlocksParams {
    /// The number of blocks meant: the one named, at most
    /// `BLOCKS_PER_DAY_MAX`, and that many when none is named.
    pub fn limit(&self) -> (l: u32)
        ensures
            l <= BLOCKS_PER_DAY_MAX,
            self.limit matches Some(n) ==> l == (if n <= BLOCKS_PER_DAY_MAX {
                n
            } else {
                BLOCKS_PER_DAY_MAX
            }),
            self.limit is None ==> l == BLOCKS_PER_DAY_MAX,
    {
        match self.limit {
            Some(n) => if n <= BLOCKS_PER_DAY_MAX {
                n
            } else {
                BLOCKS_PER_DAY_MAX
            },
            None => BLOCKS_PER_DAY_MAX,
        }
    }
}

/// Query of a transaction list: by block or by address, one page.
#[derive(Debug, Clone, PartialEq, Eq)]
pub struct TxsParams {
    pub block: Option<String>,
    pub address: Option<String>,
    pub page_num: Option<u32>,
}

/// What a transaction list is taken from.
#[derive(Debug, Clone, Copy, PartialEq, Eq, Structural)]
pub enum TxsSource {
    /// The transactions of a block.
    Block,
    /// The transactions of an address, newest first.
    Address,
    /// Nothing was named: the list is empty.
    Nothing,
}

impl TxsParams {
    /// The page meant, counted from zero.
    pub fn page(&self) -> (p: u32)
        ensures
            self.page_num matches Some(n) ==> p == n,
            self.page_num is None ==> p == 0,
    {
        match self.page_num {
            Some(n) => n,
            None => 0,
        }
    }

    /// What the list is taken from: a block where one is named, else an
    /// address where one is named.
    pub fn source(&self) -> (s: TxsSource)
        ensures
            self.block is Some ==> s == TxsSource::Block,
            self.block is None && self.address is Some ==> s == TxsSource::Address,
            self.block is None && self.address is None ==> s == TxsSource::Nothing,
    {
        if self.block.is_some() {
            TxsSource::Block
        } else if self.address.is_some() {
            TxsSource::Address
        } else {
            TxsSource::Nothing
        }
    }
}

/// Body of a request to broadcast a transaction.
#[derive(Debug, Clone, PartialEq, Eq)]
pub struct SendTxBody {
    pub rawtx: String,
}

/// Query of an address summary.
#[derive(Debug, Clone, Copy, PartialEq, Eq)]
pub struct AddrParams {
    pub no_tx_list: Option<u32>,
    pub from: Option<u32>,
    pub to: Option<u32>,
}

/// Body of a request about several addresses.
#[derive(Debug, Clone, PartialEq, Eq)]
pub struct AddrsBody {
    pub addrs: String,
    pub from: Option<u32>,
    pub to: Option<u32>,
}

/// Query of the governance object list.
#[derive(Debug, Clone, PartialEq, Eq)]
pub struct GobjectListParams {
    pub object_type: Option<String>,
}

/// Body of a request to submit a governance object.
#[derive(Debug, Clone, PartialEq, Eq)]
pub struct GobjectSubmitBody {
    pub parent_hash: String,
    pub revision: u32,
    pub time: u64,
    pub data_hex: String,
    pub fee_tx_id: String,
}

/// Query of the status endpoint.
#[derive(Debug, Clone, PartialEq, Eq)]
pub struct StatusParams {
    pub q: Option<String>,
}

/// Query of a fee estimate.
#[derive(Debug, Clone, Copy, PartialEq, Eq)]
pub struct EstimateFeeParams {
    pub nb_blocks: Option<u32>,
}

impl EstimateFeeParams {
    /// The number of blocks meant.
    pub fn blocks(&self) -> (n: u32)
        ensures
            self.nb_blocks matches Some(b) ==> n == b,
            self.nb_blocks is None ==> n == DEFAULT_FEE_BLOCKS,
    {
        match self.nb_blocks {
            Some(b) => b,
            None => DEFAULT_FEE_BLOCKS,
        }
    }
}

// ------------------------------------------------------------------ status
/// What the status endpoint is asked for.
#[derive(Debug, Clone, Copy, PartialEq, Eq, Structural)]
pub enum StatusQuery {
    GetInfo,
    GetDifficulty,
    GetBestBlockHash,
    GetBestChainLock,
    GetLastBlockHash,
    /// None of the above.
    Invalid,
}

/// The query that a name stands for.
pub open spec fn status_query_of(name: Seq<char>) -> StatusQuery {
    if name == "getInfo"@ {
        StatusQuery::GetInfo
    } else if name == "getDifficulty"@ {
        StatusQuery::GetDifficulty
    } else if name == "getBestBlockHash"@ {
        StatusQuery::GetBestBlockHash
    } else if name == "getBestChainLock"@ {
        StatusQuery::GetBestChainLock
    } else if name == "getLastBlockHash"@ {
        StatusQuery::GetLastBlockHash
    } else {
        StatusQuery::Invalid
    }
}

impl StatusParams {
    /// The query meant: the one named, and general information when none
    /// is named.
    pub fn query(&self) -> (q: StatusQuery)
        ensures
            self.q matches Some(name) ==> q == status_query_of(name@),
            self.q is None ==> q == StatusQuery::GetInfo,
    {
        match &self.q {
            None => StatusQuery::GetInfo,
            Some(name) => {
                let n = name.as_str();
                if same_text(n, "getInfo") {
                    StatusQuery::GetInfo
                } else if same_text(n, "getDifficulty") {
                    StatusQuery::GetDifficulty
                } else if same_text(n, "getBestBlockHash") {
                    StatusQuery::GetBestBlockHash
                } else if same_text(n, "getBestChainLock") {
                    StatusQuery::GetBestChainLock
                } else if same_text(n, "getLastBlockHash") {
                    StatusQuery::GetLastBlockHash
                } else {
                    StatusQuery::Invalid
                }
            },
        }
    }
}

// ------------------------------------------------------------------ totals
/// The value nearest to `v` that fits in 64 bits.
pub open spec fn clamped(v: int) -> i64 {
    if v > i64::MAX {
        i64::MAX
    } else if v < i64::MIN {
        i64::MIN
    } else {
        v as i64
    }
}

fn clamp_wide(v: i128) -> (r: i64)
    ensures
        r == clamped(v as int),
{
    if v > i64::MAX as i128 {
        i64::MAX
    } else if v < i64::MIN as i128 {
        i64::MIN
    } else {
        v as i64
    }
}

/// What an address has sent: what it received less what it still holds,
/// saturated to 64 bits.
pub fn total_sent(balance: &RpcAddressBalance) -> (sent: i64)
    ensures
        sent == clamped(balance.received - balance.balance),
{
    clamp_wide(balance.received as i128 - balance.balance as i128)
}

/// Which figure of a balance is summed over several addresses.
#[derive(Debug, Clone, Copy, PartialEq, Eq, Structural)]
pub enum BalanceFigure {
    Balance,
    TotalReceived,
    TotalSent,
}

/// A figure of one balance.
pub open spec fn figure_of(balance: RpcAddressBalance, figure: BalanceFigure) -> int {
    match figure {
        BalanceFigure::Balance => balance.balance as int,
        BalanceFigure::TotalReceived => balance.received as int,
        BalanceFigure::TotalSent => clamped(balance.received - balance.balance) as int,
    }
}

/// Sum of a figure over the balances that could be fetched; an address
/// whose balance could not be fetched adds nothing.
pub open spec fn figure_sum(balances: Seq<Option<RpcAddressBalance>>, figure: BalanceFigure) -> int
    decreases balances.len(),
{
    if balances.len() == 0 {
        0
    } else {
        figure_sum(balances.drop_last(), figure) + match balances.last() {
            Some(b) => figure_of(b, figure),
            None => 0,
        }
    }
}

/// Sums a figure over several addresses, saturated to 64 bits.
pub fn sum_figure(balances: &Vec<Option<RpcAddressBalance>>, figure: BalanceFigure) -> (sum: i64)
    ensures
        sum == clamped(figure_sum(balances@, figure)),
{
    let mut acc: i128 = 0;
    let mut i: usize = 0;
    assert(balances@.take(0) =~= Seq::<Option<RpcAddressBalance>>::empty());
    while i < balances.len()
        invariant
            0 <= i <= balances.len(),
            acc as int == figure_sum(balances@.take(i as int), figure),
            -(i as int) * 0x8000_0000_0000_0000 <= acc as int <= (i as int)
                * 0x8000_0000_0000_0000,
        decreases balances.len() - i,
    {
        let ghost before = balances@.take(i as int);
        let ghost upto = balances@.take(i as int + 1);
        assert(upto.drop_last() =~= before);
        assert(upto.last() == balances@[i as int]);
        match &balances[i] {
            Some(b) => {
                let add: i128 = match figure {
                    BalanceFigure::Balance => b.balance as i128,
                    BalanceFigure::TotalReceived => b.received as i128,
                    BalanceFigure::TotalSent => total_sent(b) as i128,
                };
                acc = acc + add;
            },
            None => {},
        }
        i = i + 1;
    }
    assert(balances@.take(balances.len() as int) =~= balances@);
    clamp_wide(acc)
}

// ------------------------------------------------------------------ slices
/// The part of a list that is left after skipping `skip` items and then
/// taking at most `take`.
pub open spec fn skip_take<T>(items: Seq<T>, skip: int, take: int) -> Seq<T> {
    if skip >= items.len() {
        Seq::empty()
    } else if skip + take <= items.len() {
        items.subrange(skip, skip + take)
    } else {
        items.subrange(skip, items.len() as int)
    }
}

/// The bounds of `skip_take` in a list of `total` items: the slice is the
/// items from `start` up to, not including, `end`.
pub fn slice_bounds(total: usize, skip: u64, take: u64) -> (bounds: (usize, usize))
    ensures
        bounds.0 <= bounds.1 <= total,
        skip >= total ==> bounds.0 == bounds.1,
        skip < total ==> bounds.0 == skip,
        skip < total && skip + take <= total ==> bounds.1 == skip + take,
        skip < total && skip + take > total ==> bounds.1 == total,
{
    if skip >= total as u64 {
        (total, total)
    } else {
        let start: usize = skip as usize;
        let room: u64 = (total - start) as u64;
        if take <= room {
            (start, start + take as usize)
        } else {
            (start, total)
        }
    }
}

/// The ids of an address newest first, without the first `skip` and then
/// at most `take` of them.
pub fn recent_slice(all: &Vec<String>, skip: u64, take: u64) -> (out: Vec<String>)
    ensures
        out@ == skip_take(all@.reverse(), skip as int, take as int),
{
    let (start, end) = slice_bounds(all.len(), skip, take);
    let len = all.len();
    let mut out: Vec<String> = Vec::new();
    let mut j: usize = start;
    while j < end
        invariant
            start <= j <= end <= len,
            len == all.len(),
            out@ == all@.reverse().subrange(start as int, j as int),
        decreases end - j,
    {
        out.push(all[len - 1 - j].clone());
        assert(out@ =~= all@.reverse().subrange(start as int, j as int + 1));
        j = j + 1;
    }
    if start == end {
        assert(out@ =~= Seq::<String>::empty());
    }
    out
}

/// Number of pages that `total` transactions fill.
pub fn tx_pages(total: usize) -> (pages: usize)
    ensures
        pages == (total + TXS_PER_PAGE - 1) / (TXS_PER_PAGE as int),
{
    if total == 0 {
        0
    } else {
        (total - 1) / TXS_PER_PAGE + 1
    }
}

/// The number of ids that an address summary lists: those from `from` up
/// to `to`, at most `ADDR_TX_LIST_MAX`; `to` is the number of transactions
/// when the request names none.
pub open spec fn addr_list_len(from: Option<u32>, to: Option<u32>, tx_count: u32) -> u32 {
    let lo = match from {
        Some(f) => f,
        None => 0,
    };
    let hi = match to {
        Some(t) => t,
        None => tx_count,
    };
    if hi <= lo {
        0
    } else if hi - lo > ADDR_TX_LIST_MAX {
        ADDR_TX_LIST_MAX
    } else {
        (hi - lo) as u32
    }
}

impl AddrParams {
    /// Whether the summary lists ids at all: not when the request sets
    /// `no_tx_list` to one.
    pub fn lists_transactions(&self) -> (b: bool)
        ensures
            b == !(self.no_tx_list matches Some(n) && n == 1),
    {
        match self.no_tx_list {
            Some(n) => n != 1,
            None => true,
        }
    }

    /// The ids that the summary lists, newest first. The number of
    /// transactions is taken modulo 2^32 where it stands in for `to`.
    pub fn listed(&self, all: &Vec<String>) -> (out: Vec<String>)
        ensures
            out@ == skip_take(
                all@.reverse(),
                (match self.from {
                    Some(f) => f as int,
                    None => 0,
                }),
                addr_list_len(self.from, self.to, (all@.len() % 0x1_0000_0000) as u32) as int,
            ),
    {
        let from: u32 = match self.from {
            Some(f) => f,
            None => 0,
        };
        let count: u32 = ((all.len() as u64) % 0x1_0000_0000) as u32;
        let to: u32 = match self.to {
            Some(t) => t,
            None => count,
        };
        let take: u32 = if to <= from {
            0
        } else if to - from > ADDR_TX_LIST_MAX {
            ADDR_TX_LIST_MAX
        } else {
            to - from
        };
        recent_slice(all, from as u64, take as u64)
    }
}

// --------------------------------------------------------- address lists
/// The fields that name an address: each field without surrounding white
/// space, except those that are empty then.
pub open spec fn named(fields: Seq<Seq<char>>) -> Seq<Seq<char>>
    decreases fields.len(),
{
    if fields.len() == 0 {
        Seq::empty()
    } else if trimmed(fields.last()).len() == 0 {
        named(fields.drop_last())
    } else {
        named(fields.drop_last()).push(trimmed(fields.last()))
    }
}

/// Reads a list of addresses separated by commas: white space around an
/// address is dropped, and so is a place that names none.
pub fn split_addresses(addrs: &str) -> (out: Vec<String>)
    ensures
        texts(out@) == named(fields_of(addrs@, ',')),
{
    let fields = split_fields(addrs, ',');
    let mut out: Vec<String> = Vec::new();
    let mut i: usize = 0;
    proof {
        assert(texts(fields@).take(0) =~= Seq::<Seq<char>>::empty());
        assert(texts(out@) =~= Seq::<Seq<char>>::empty());
    }
    while i < fields.len()
        invariant
            0 <= i <= fields.len(),
            texts(out@) == named(texts(fields@).take(i as int)),
        decreases fields.len() - i,
    {
        proof {
            assert(texts(fields@).take(i as int + 1).drop_last() =~= texts(fields@).take(
                i as int,
            ));
            assert(texts(fields@).take(i as int + 1).last() == fields@[i as int]@);
        }
        let piece = trim(fields[i].as_str());
        if chars_of(piece).len() > 0 {
            let ghost old_out = out@;
            out.push(String::from_str(piece));
            assert(texts(out@) =~= texts(old_out).push(piece@));
        }
        i = i + 1;
    }
    proof {
        assert(texts(fields@).take(fields.len() as int) =~= texts(fields@));
    }
    out
}

/// A list with the items of `items` added to it in order, except those
/// that it already holds.
pub open spec fn add_unique(acc: Seq<Seq<char>>, items: Seq<Seq<char>>) -> Seq<Seq<char>>
    decreases items.len(),
{
    if items.len() == 0 {
        acc
    } else {
        let before = add_unique(acc, items.drop_last());
        if before.contains(items.last()) {
            before
        } else {
            before.push(items.last())
        }
    }
}

/// The ids of several addresses in one list: the lists that could be
/// fetched, one after the other, each id where it first occurs.
pub open spec fn merged(lists: Seq<Option<Vec<String>>>) -> Seq<Seq<char>>
    decreases lists.len(),
{
    if lists.len() == 0 {
        Seq::empty()
    } else {
        match lists.last() {
            Some(ids) => add_unique(merged(lists.drop_last()), texts(ids@)),
            None => merged(lists.drop_last()),
        }
    }
}

fn holds(list: &Vec<String>, item: &String) -> (r: bool)
    ensures
        r == texts(list@).contains(item@),
{
    let mut i: usize = 0;
    while i < list.len()
        invariant
            0 <= i <= list.len(),
            forall|k: int| 0 <= k < i ==> texts(list@)[k] != item@,
        decreases list.len() - i,
    {
        if list[i] == *item {
            assert(texts(list@)[i as int] == item@);
            return true;
        }
        i = i + 1;
    }
    false
}

/// Merges the ids of several addresses; `lists[k]` is what fetching the
/// ids of the `k`-th address gave, `None` for a fetch that failed.
pub fn merge_unique(lists: &Vec<Option<Vec<String>>>) -> (out: Vec<String>)
    ensures
        texts(out@) == merged(lists@),
{
    let mut out: Vec<String> = Vec::new();
    let mut i: usize = 0;
    proof {
        assert(lists@.take(0) =~= Seq::<Option<Vec<String>>>::empty());
        assert(texts(out@) =~= Seq::<Seq<char>>::empty());
    }
    while i < lists.len()
        invariant
            0 <= i <= lists.len(),
            texts(out@) == merged(lists@.take(i as int)),
        decreases lists.len() - i,
    {
        proof {
            assert(lists@.take(i as int + 1).drop_last() =~= lists@.take(i as int));
            assert(lists@.take(i as int + 1).last() == lists@[i as int]);
        }
        match &lists[i] {
            Some(ids) => {
                let ghost base = texts(out@);
                let mut j: usize = 0;
                proof {
                    assert(texts(ids@).take(0) =~= Seq::<Seq<char>>::empty());
                }
                while j < ids.len()
                    invariant
                        0 <= j <= ids.len(),
                        texts(out@) == add_unique(base, texts(ids@).take(j as int)),
                    decreases ids.len() - j,
                {
                    proof {
                        assert(texts(ids@).take(j as int + 1).drop_last() =~= texts(ids@).take(
                            j as int,
                        ));
                        assert(texts(ids@).take(j as int + 1).last() == ids@[j as int]@);
                    }
                    if !holds(&out, &ids[j]) {
                        let ghost old_out = out@;
                        out.push(ids[j].clone());
                        assert(texts(out@) =~= texts(old_out).push(ids@[j as int]@));
                    }
                    j = j + 1;
                }
                proof {
                    assert(texts(ids@).take(ids.len() as int) =~= texts(ids@));
                }
            },
            None => {},
        }
        i = i + 1;
    }
    proof {
        assert(lists@.take(lists.len() as int) =~= lists@);
    }
    out
}

/// A merged list holds no id twice.
pub proof fn lemma_merged_has_no_duplicates(lists: Seq<Option<Vec<String>>>)
    ensures
        merged(lists).no_duplicates(),
    decreases lists.len(),
{
    if lists.len() > 0 {
        lemma_merged_has_no_duplicates(lists.drop_last());
        match lists.last() {
            Some(ids) => lemma_add_unique_keeps_distinct(merged(lists.drop_last()), texts(ids@)),
            None => {},
        }
    }
}

proof fn lemma_add_unique_keeps_distinct(acc: Seq<Seq<char>>, items: Seq<Seq<char>>)
    requires
        acc.no_duplicates(),
    ensures
        add_unique(acc, items).no_duplicates(),
    decreases items.len(),
{
    if items.len() > 0 {
        lemma_add_unique_keeps_distinct(acc, items.drop_last());
    }
}

impl AddrsBody {
    /// First place of the range asked for; zero when none is named.
    pub fn from(&self) -> (f: u32)
        ensures
            self.from matches Some(n) ==> f == n,
            self.from is None ==> f == 0,
    {
        match self.from {
            Some(n) => n,
            None => 0,
        }
    }

    /// End of the range asked for; ten when none is named.
    pub fn to(&self) -> (t: u32)
        ensures
            self.to matches Some(n) ==> t == n,
            self.to is None ==> t == 10,
    {
        match self.to {
            Some(n) => n,
            None => 10,
        }
    }
}

/// The ids of the range from `from` up to `to` of a merged list, newest
/// first.
pub fn merged_range(all: &Vec<String>, from: u32, to: u32) -> (out: Vec<String>)
    requires
        from <= to,
    ensures
        out@ == skip_take(all@.reverse(), from as int, to - from),
{
    recent_slice(all, from as u64, (to - from) as u64)
}

// ---------------------------------------------------------------- placing
/// Where a transaction stands in the chain.
#[derive(Debug, Clone, PartialEq, Eq)]
pub struct TxPlacement {
    pub blockhash: Option<String>,
    pub blockheight: Option<u64>,
    pub time: Option<u64>,
    pub blocktime: Option<u64>,
    pub confirmations: Option<i64>,
}

/// The block that a transaction was fetched with.
#[derive(Debug, Clone, PartialEq, Eq)]
pub struct BlockInfo {
    pub hash: String,
    pub height: u64,
    pub time: u64,
    pub confirmations: i64,
}

/// The placement of a transaction that was fetched with its block: the
/// block's own hash, height and confirmations, and the block's time for
/// both times.
pub open spec fn placement_in(block: BlockInfo) -> TxPlacement {
    TxPlacement {
        blockhash: Some(block.hash),
        blockheight: Some(block.height),
        time: Some(block.time),
        blocktime: Some(block.time),
        confirmations: Some(block.confirmations),
    }
}

/// Places a transaction: by the block it was fetched with, where there is
/// one, and else by what the transaction says of itself.
pub fn place_tx(own: TxPlacement, block: Option<BlockInfo>) -> (r: TxPlacement)
    ensures
        block matches Some(b) ==> r == placement_in(b),
        block is None ==> r == own,
{
    match block {
        Some(b) => TxPlacement {
            blockhash: Some(b.hash),
            blockheight: Some(b.height),
            time: Some(b.time),
            blocktime: Some(b.time),
            confirmations: Some(b.confirmations),
        },
        None => own,
    }
}

// ------------------------------------------------------------------- sync
/// Percentage from which the node counts as synchronised.
pub const SYNCED_FROM_PERCENT: u32 = 99;

/// How far the node has synchronised, as it is shown.
#[derive(Debug, Clone, Copy, PartialEq, Eq, Structural)]
pub struct SyncView {
    /// Whether the node counts as synchronised.
    pub finished: bool,
    /// The percentage shown, at most one hundred.
    pub percentage: u32,
}

/// Shows a percentage of synchronisation.
pub fn sync_view(percent: u32) -> (v: SyncView)
    ensures
        v.finished == (percent >= SYNCED_FROM_PERCENT),
        v.percentage == (if percent <= 100 {
            percent
        } else {
            100
        }),
{
    SyncView {
        finished: percent >= SYNCED_FROM_PERCENT,
        percentage: if percent <= 100 {
            percent
        } else {
            100
        },
    }
}

} // verus!
