//! The masternode list: filtered by type and status, ordered with enabled
//! nodes first and by proof-of-service penalty within, and cut into pages.

use vstd::prelude::*;
use vstd::string::*;
use crate::models::masternode::{summary_of, MasternodeSummary};
use crate::rpc::types::RpcMasternodeListEntry;
use crate::text::{lowercase, lowercase_of, same_text};

verus! {

/// Page size used when the request names none.
pub const DEFAULT_LIST_SIZE: u32 = 50;

/// Largest page size served.
pub const MAX_LIST_SIZE: u32 = 200;

/// Paging and filters of a list request as the client sent it.
#[derive(Debug, Clone, PartialEq, Eq)]
pub struct MasternodeListParams {
    pub page: Option<u32>,
    pub limit: Option<u32>,
    pub mn_type: Option<String>,
    pub status: Option<String>,
}

/// One page of the list, with the size of the whole filtered list.
#[derive(Debug, Clone, PartialEq, Eq)]
pub struct MasternodeListResponse {
    pub masternodes: Vec<MasternodeSummary>,
    pub total: usize,
    pub page: u32,
    pub pages: u32,
}

/// The page that a request means: the one it names, at least the first.
pub open spec fn list_page(page: Option<u32>) -> u32 {
    match page {
        Some(p) => if p >= 1 {
            p
        } else {
            1
        },
        None => 1,
    }
}

/// The page size that a request means: the one it names, at most
/// `MAX_LIST_SIZE`.
pub open spec fn list_limit(limit: Option<u32>) -> u32 {
    match limit {
        Some(l) => if l <= MAX_LIST_SIZE {
            l
        } else {
            MAX_LIST_SIZE
        },
        None => DEFAULT_LIST_SIZE,
    }
}

impl MasternodeListParams {
    /// The page meant, counted from one.
    pub fn page(&self) -> (p: u32)
        ensures
            p == list_page(self.page),
            p >= 1,
    {
        match self.page {
            Some(p) => if p >= 1 {
                p
            } else {
                1
            },
            None => 1,
        }
    }

    /// The page size meant.
    pub fn limit(&self) -> (l: u32)
        ensures
            l == list_limit(self.limit),
            l <= MAX_LIST_SIZE,
    {
        match self.limit {
            Some(l) => if l <= MAX_LIST_SIZE {
                l
            } else {
                MAX_LIST_SIZE
            },
            None => DEFAULT_LIST_SIZE,
        }
    }
}

/// Whether a value passes a filter: no filter and the filter `all` let
/// everything pass; any other filter lets pass what equals it without
/// regard to case.
pub open spec fn passes(filter: Option<String>, value: Seq<char>) -> bool {
    match filter {
        None => true,
        Some(f) => f@ == "all"@ || lowercase_of(value) == lowercase_of(f@),
    }
}

/// Tests a value against a filter.
pub fn filter_passes(filter: &Option<String>, value: &str) -> (ok: bool)
    ensures
        ok == passes(*filter, value@),
{
    match filter {
        None => true,
        Some(f) => {
            if same_text(f.as_str(), "all") {
                true
            } else {
                let have = lowercase(value);
                let want = lowercase(f.as_str());
                have == want
            }
        },
    }
}

/// Whether an entry of the node's list passes both filters.
pub open spec fn selected(
    entry: RpcMasternodeListEntry,
    type_filter: Option<String>,
    status_filter: Option<String>,
) -> bool {
    passes(type_filter, entry.mn_type@) && passes(status_filter, entry.status@)
}

/// Whether a masternode counts as enabled.
pub open spec fn is_enabled(mn: MasternodeSummary) -> bool {
    mn.status@ == "ENABLED"@
}

/// Whether `a` has to stand before `b`: an enabled node before one that is
/// not, and among nodes alike in that, the one with the lower penalty.
pub open spec fn sorts_before(a: MasternodeSummary, b: MasternodeSummary) -> bool {
    if is_enabled(a) != is_enabled(b) {
        is_enabled(a)
    } else {
        a.pose_penalty < b.pose_penalty
    }
}

/// Where a masternode goes in an ordered list: before the first one that
/// it has to stand before, hence behind all that rank the same.
pub open spec fn place_of(ordered: Seq<MasternodeSummary>, mn: MasternodeSummary) -> int
    decreases ordered.len(),
{
    if ordered.len() == 0 || sorts_before(mn, ordered[0]) {
        0
    } else {
        1 + place_of(ordered.drop_first(), mn)
    }
}

/// The selected masternodes in listing order. Masternodes that rank the
/// same keep the order in which the node listed them.
pub open spec fn listing(
    entries: Seq<RpcMasternodeListEntry>,
    type_filter: Option<String>,
    status_filter: Option<String>,
) -> Seq<MasternodeSummary>
    decreases entries.len(),
{
    if entries.len() == 0 {
        Seq::empty()
    } else {
        let before = listing(entries.drop_last(), type_filter, status_filter);
        if selected(entries.last(), type_filter, status_filter) {
            let mn = summary_of(entries.last());
            before.insert(place_of(before, mn), mn)
        } else {
            before
        }
    }
}

/// Number of pages that `total` items fill at `limit` items a page. With a
/// page size of zero no page is ever filled: an empty list has no pages
/// and any other list has as many as can be counted.
pub open spec fn pages_for(total: nat, limit: nat) -> nat {
    if limit == 0 {
        if total == 0 {
            0
        } else {
            u32::MAX as nat
        }
    } else if (total + limit - 1) / (limit as int) > u32::MAX {
        u32::MAX as nat
    } else {
        ((total + limit - 1) / (limit as int)) as nat
    }
}

/// Page `page` (counted from one) of `items` at `limit` items a page.
pub open spec fn page_of<T>(items: Seq<T>, page: int, limit: int) -> Seq<T> {
    let start = (page - 1) * limit;
    if start >= items.len() {
        Seq::empty()
    } else if start + limit <= items.len() {
        items.subrange(start, start + limit)
    } else {
        items.subrange(start, items.len() as int)
    }
}

fn ranks_before(a: &MasternodeSummary, b: &MasternodeSummary) -> (r: bool)
    ensures
        r == sorts_before(*a, *b),
{
    let a_enabled = same_text(a.status.as_str(), "ENABLED");
    let b_enabled = same_text(b.status.as_str(), "ENABLED");
    if a_enabled != b_enabled {
        a_enabled
    } else {
        a.pose_penalty < b.pose_penalty
    }
}

proof fn lemma_place_from(ordered: Seq<MasternodeSummary>, mn: MasternodeSummary, p: int)
    requires
        0 <= p <= ordered.len(),
        forall|k: int| 0 <= k < p ==> !sorts_before(mn, #[trigger] ordered[k]),
    ensures
        place_of(ordered, mn) == p + place_of(ordered.subrange(p, ordered.len() as int), mn),
        0 <= place_of(ordered, mn) <= ordered.len(),
    decreases p,
{
    if p == 0 {
        assert(ordered.subrange(0, ordered.len() as int) =~= ordered);
        lemma_place_in_range(ordered, mn);
    } else {
        lemma_place_from(ordered, mn, p - 1);
        let tail = ordered.subrange(p - 1, ordered.len() as int);
        assert(tail[0] == ordered[p - 1]);
        assert(tail.drop_first() =~= ordered.subrange(p, ordered.len() as int));
    }
}

proof fn lemma_place_in_range(ordered: Seq<MasternodeSummary>, mn: MasternodeSummary)
    ensures
        0 <= place_of(ordered, mn) <= ordered.len(),
    decreases ordered.len(),
{
    if ordered.len() > 0 && !sorts_before(mn, ordered[0]) {
        lemma_place_in_range(ordered.drop_first(), mn);
    }
}

fn insert_ordered(ordered: &mut Vec<MasternodeSummary>, mn: MasternodeSummary)
    ensures
        final(ordered)@ == old(ordered)@.insert(place_of(old(ordered)@, mn), mn),
{
    let mut p: usize = 0;
    while p < ordered.len() && !ranks_before(&mn, &ordered[p])
        invariant
            0 <= p <= ordered.len(),
            ordered@ == old(ordered)@,
            forall|k: int| 0 <= k < p ==> !sorts_before(mn, #[trigger] ordered@[k]),
        decreases ordered.len() - p,
    {
        p = p + 1;
    }
    proof {
        lemma_place_from(ordered@, mn, p as int);
        let tail = ordered@.subrange(p as int, ordered@.len() as int);
        if p < ordered.len() {
            assert(tail[0] == ordered@[p as int]);
        }
        assert(place_of(tail, mn) == 0);
    }
    ordered.insert(p, mn);
}

/// Counts the pages of a list.
pub fn page_count(total: usize, limit: u32) -> (pages: u32)
    ensures
        pages as nat == pages_for(total as nat, limit as nat),
{
    if limit == 0 {
        if total == 0 {
            0
        } else {
            u32::MAX
        }
    } else {
        let full: u128 = (total as u128 + limit as u128 - 1) / (limit as u128);
        if full > u32::MAX as u128 {
            u32::MAX
        } else {
            full as u32
        }
    }
}

/// Builds one page of the masternode list from the node's entries, in the
/// order in which the node gave them.
pub fn list_page_of(entries: &Vec<RpcMasternodeListEntry>, params: &MasternodeListParams) -> (resp:
    MasternodeListResponse)
    ensures
        resp.masternodes@ == page_of(
            listing(entries@, params.mn_type, params.status),
            list_page(params.page) as int,
            list_limit(params.limit) as int,
        ),
        resp.total == listing(entries@, params.mn_type, params.status).len(),
        resp.page == list_page(params.page),
        resp.pages as nat == pages_for(resp.total as nat, list_limit(params.limit) as nat),
{
    let page = params.page();
    let limit = params.limit();
    let mut ordered: Vec<MasternodeSummary> = Vec::new();
    let mut i: usize = 0;
    assert(entries@.take(0) =~= Seq::<RpcMasternodeListEntry>::empty());
    while i < entries.len()
        invariant
            0 <= i <= entries.len(),
            ordered@ == listing(entries@.take(i as int), params.mn_type, params.status),
        decreases entries.len() - i,
    {
        let ghost before = entries@.take(i as int);
        let ghost upto = entries@.take(i as int + 1);
        assert(upto.drop_last() =~= before);
        assert(upto.last() == entries@[i as int]);
        let entry = &entries[i];
        if filter_passes(&params.mn_type, entry.mn_type.as_str()) && filter_passes(
            &params.status,
            entry.status.as_str(),
        ) {
            insert_ordered(&mut ordered, MasternodeSummary::from_list_entry(entry));
        }
        i = i + 1;
    }
    assert(entries@.take(entries.len() as int) =~= entries@);
    let total = ordered.len();
    let pages = page_count(total, limit);
    assert((page - 1) * limit <= 0xffff_ffff * 200) by (nonlinear_arith)
        requires
            0 <= page - 1 <= 0xffff_ffff,
            0 <= limit <= 200,
    ;
    let start: u64 = (page - 1) as u64 * (limit as u64);
    let ghost whole = ordered@;
    let masternodes: Vec<MasternodeSummary> = if start >= total as u64 {
        Vec::new()
    } else {
        let mut tail = ordered.split_off(start as usize);
        if tail.len() > limit as usize {
            tail.truncate(limit as usize);
        }
        assert(tail@ =~= page_of(whole, page as int, limit as int));
        tail
    };
    MasternodeListResponse { masternodes, total, page, pages }
}

/// The listing is in order: no masternode stands behind one that it has
/// to stand before.
pub proof fn lemma_listing_is_ordered(
    entries: Seq<RpcMasternodeListEntry>,
    type_filter: Option<String>,
    status_filter: Option<String>,
)
    ensures
        forall|i: int, j: int|
            0 <= i < j < listing(entries, type_filter, status_filter).len() ==> !sorts_before(
                #[trigger] listing(entries, type_filter, status_filter)[j],
                #[trigger] listing(entries, type_filter, status_filter)[i],
            ),
    decreases entries.len(),
{
    if entries.len() > 0 {
        lemma_listing_is_ordered(entries.drop_last(), type_filter, status_filter);
        let before = listing(entries.drop_last(), type_filter, status_filter);
        if selected(entries.last(), type_filter, status_filter) {
            let mn = summary_of(entries.last());
            lemma_place_splits(before, mn);
            let p = place_of(before, mn);
            let after = before.insert(p, mn);
            assert forall|i: int, j: int| 0 <= i < j < after.len() implies !sorts_before(
                #[trigger] after[j],
                #[trigger] after[i],
            ) by {
                if i < p && j > p {
                    assert(after[i] == before[i]);
                    assert(after[j] == before[j - 1]);
                } else if i < p && j < p {
                    assert(after[i] == before[i]);
                    assert(after[j] == before[j]);
                } else if i > p {
                    assert(after[i] == before[i - 1]);
                    assert(after[j] == before[j - 1]);
                } else if j == p {
                    assert(after[i] == before[i]);
                } else {
                    assert(after[j] == before[j - 1]);
                }
            }
        }
    }
}

/// In an ordered list, nothing before the place of `mn` has to stand
/// behind it, and everything from its place on has to.
proof fn lemma_place_splits(ordered: Seq<MasternodeSummary>, mn: MasternodeSummary)
    requires
        forall|i: int, j: int|
            0 <= i < j < ordered.len() ==> !sorts_before(
                #[trigger] ordered[j],
                #[trigger] ordered[i],
            ),
    ensures
        0 <= place_of(ordered, mn) <= ordered.len(),
        forall|k: int| 0 <= k < place_of(ordered, mn) ==> !sorts_before(mn, #[trigger] ordered[k]),
        forall|k: int|
            place_of(ordered, mn) <= k < ordered.len() ==> !sorts_before(
                #[trigger] ordered[k],
                mn,
            ),
    decreases ordered.len(),
{
    if ordered.len() == 0 {
    } else if sorts_before(mn, ordered[0]) {
        assert forall|k: int| 0 <= k < ordered.len() implies !sorts_before(
            #[trigger] ordered[k],
            mn,
        ) by {
            if k > 0 {
                assert(!sorts_before(ordered[k], ordered[0]));
            }
        }
    } else {
        let rest = ordered.drop_first();
        assert forall|i: int, j: int| 0 <= i < j < rest.len() implies !sorts_before(
            #[trigger] rest[j],
            #[trigger] rest[i],
        ) by {
            assert(rest[i] == ordered[i + 1]);
            assert(rest[j] == ordered[j + 1]);
        }
        lemma_place_splits(rest, mn);
        let p = place_of(ordered, mn);
        assert forall|k: int| 0 <= k < p implies !sorts_before(mn, #[trigger] ordered[k]) by {
            if k > 0 {
                assert(ordered[k] == rest[k - 1]);
            }
        }
        assert forall|k: int| p <= k < ordered.len() implies !sorts_before(
            #[trigger] ordered[k],
            mn,
        ) by {
            assert(ordered[k] == rest[k - 1]);
        }
    }
}

/// The selected masternodes in the order in which the node listed them.
pub open spec fn selection(
    entries: Seq<RpcMasternodeListEntry>,
    type_filter: Option<String>,
    status_filter: Option<String>,
) -> Seq<MasternodeSummary>
    decreases entries.len(),
{
    if entries.len() == 0 {
        Seq::empty()
    } else if selected(entries.last(), type_filter, status_filter) {
        selection(entries.drop_last(), type_filter, status_filter).push(
            summary_of(entries.last()),
        )
    } else {
        selection(entries.drop_last(), type_filter, status_filter)
    }
}

/// The listing holds exactly the selected masternodes, each as often as
/// the node listed it: ordering neither drops nor adds one.
pub proof fn lemma_listing_holds_the_selection(
    entries: Seq<RpcMasternodeListEntry>,
    type_filter: Option<String>,
    status_filter: Option<String>,
)
    ensures
        listing(entries, type_filter, status_filter).to_multiset() == selection(
            entries,
            type_filter,
            status_filter,
        ).to_multiset(),
        listing(entries, type_filter, status_filter).len() == selection(
            entries,
            type_filter,
            status_filter,
        ).len(),
    decreases entries.len(),
{
    broadcast use vstd::seq_lib::group_to_multiset_ensures;

    if entries.len() > 0 {
        lemma_listing_holds_the_selection(entries.drop_last(), type_filter, status_filter);
        if selected(entries.last(), type_filter, status_filter) {
            let before = listing(entries.drop_last(), type_filter, status_filter);
            let mn = summary_of(entries.last());
            lemma_place_in_range(before, mn);
            vstd::seq_lib::to_multiset_insert(before, place_of(before, mn), mn);
        }
    }
}

} // verus!
