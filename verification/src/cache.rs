//! Confirmation-aware read-through caches.
//!
//! Each artifact class has its own bounded cache with a time to live. A block
//! or a transaction enters its cache only once it is buried deeper than the
//! safety margin, so data that a reorganisation could still change is never
//! served from memory. The caches themselves are `moka` caches.

use vstd::prelude::*;
use vstd::string::*;
use crate::text::{decimal_digits, u64_text};

verus! {

/// Number of confirmations that an artifact must exceed to be cached.
pub const SAFETY_MARGIN: i64 = 6;

/// Longest time to live that a cache accepts: one thousand years, in seconds.
pub const MAX_TTL_SECS: u64 = 31_536_000_000;

/// Whether an artifact with this many confirmations may be cached.
pub open spec fn is_cacheable(confirmations: int) -> bool {
    confirmations > SAFETY_MARGIN as int
}

/// Confirmation depth of an artifact at `height` when the tip is at `tip`:
/// the number of blocks from the artifact's block to the tip, both counted.
/// An artifact that the tip has not reached yet has depth one.
pub open spec fn depth_of(tip: int, height: int) -> int {
    if tip >= height {
        tip - height + 1
    } else {
        1
    }
}

/// Confirmation depth, capped at `u64::MAX`.
pub fn confirmation_depth(tip: u64, height: u64) -> (d: u64)
    ensures
        depth_of(tip as int, height as int) <= u64::MAX ==> d as int == depth_of(
            tip as int,
            height as int,
        ),
        depth_of(tip as int, height as int) > u64::MAX ==> d == u64::MAX,
        d >= 1,
{
    if tip >= height {
        let gap: u64 = tip - height;
        if gap == u64::MAX {
            u64::MAX
        } else {
            gap + 1
        }
    } else {
        1
    }
}

/// Decides by heights whether an artifact may be cached: whether its
/// confirmation depth exceeds the safety margin.
pub fn deep_enough(tip: u64, height: u64) -> (ok: bool)
    ensures
        ok == is_cacheable(depth_of(tip as int, height as int)),
{
    confirmation_depth(tip, height) > 6
}

/// Capacity and time to live of one cache.
#[derive(Debug, Clone, Copy, PartialEq, Eq, Structural)]
pub struct CachePolicy {
    pub max_capacity: u64,
    pub ttl_secs: u64,
}

/// The artifact classes, each with a cache of its own.
#[derive(Debug, Clone, Copy, PartialEq, Eq, Structural)]
pub enum ArtifactClass {
    /// Block details: large payloads, rarely asked for again once old.
    Block,
    /// Height to hash: cheap, hit often by range scans.
    BlockHash,
    /// Transaction details.
    Transaction,
    /// The list of latest blocks, which follows the tip.
    LatestBlocks,
    /// The status snapshot, which follows tip and mempool closely.
    Status,
    /// The masternode list: slow to change, costly to compute.
    MasternodeList,
}

/// Policy of each artifact class.
pub open spec fn policy_of(class: ArtifactClass) -> CachePolicy {
    match class {
        ArtifactClass::Block => CachePolicy { max_capacity: 1000, ttl_secs: 3600 },
        ArtifactClass::BlockHash => CachePolicy { max_capacity: 10000, ttl_secs: 3600 },
        ArtifactClass::Transaction => CachePolicy { max_capacity: 5000, ttl_secs: 3600 },
        ArtifactClass::LatestBlocks => CachePolicy { max_capacity: 10, ttl_secs: 10 },
        ArtifactClass::Status => CachePolicy { max_capacity: 5, ttl_secs: 5 },
        ArtifactClass::MasternodeList => CachePolicy { max_capacity: 10, ttl_secs: 120 },
    }
}

impl ArtifactClass {
    /// Capacity and time to live of the class's cache.
    pub fn policy(self) -> (p: CachePolicy)
        ensures
            p == policy_of(self),
            p.ttl_secs <= MAX_TTL_SECS,
    {
        match self {
            ArtifactClass::Block => CachePolicy { max_capacity: 1000, ttl_secs: 3600 },
            ArtifactClass::BlockHash => CachePolicy { max_capacity: 10000, ttl_secs: 3600 },
            ArtifactClass::Transaction => CachePolicy { max_capacity: 5000, ttl_secs: 3600 },
            ArtifactClass::LatestBlocks => CachePolicy { max_capacity: 10, ttl_secs: 10 },
            ArtifactClass::Status => CachePolicy { max_capacity: 5, ttl_secs: 5 },
            ArtifactClass::MasternodeList => CachePolicy { max_capacity: 10, ttl_secs: 120 },
        }
    }
}

/// The map without entries.
pub open spec fn no_entries() -> Map<Seq<char>, Seq<char>> {
    Map::empty()
}

/// Key of the one status snapshot.
pub open spec fn status_key() -> Seq<char> {
    "status"@
}

#[verifier::external_type_specification]
#[verifier::external_body]
#[verifier::reject_recursive_types(K)]
#[verifier::reject_recursive_types(V)]
#[verifier::reject_recursive_types(S)]
pub struct ExMokaCache<K, V, S>(moka::sync::Cache<K, V, S>);

/// What has been written to a cache since it was built: for each key the
/// value written last. The cache may have dropped any of it (expiry,
/// eviction), so this bounds what a lookup can return.
pub uninterp spec fn text_cache_entries(c: moka::sync::Cache<String, String>) -> Map<
    Seq<char>,
    Seq<char>,
>;

/// The capacity that a cache was built with: the number of entries beyond
/// which it evicts.
pub uninterp spec fn text_cache_capacity(c: moka::sync::Cache<String, String>) -> u64;

/// The time to live that a cache was built with, in seconds: the age at
/// which it drops an entry.
pub uninterp spec fn text_cache_ttl_secs(c: moka::sync::Cache<String, String>) -> u64;

/// Builds an empty cache with the given limits.
///
/// Trusted: calls `moka::sync::Cache::builder`, then `max_capacity`,
/// `time_to_live` and `build` on the builder, which hands both limits to
/// the cache as they are. `build` panics for a time to live above one
/// thousand years, which `requires` leaves out. A cache that was just built
/// has had nothing written to it.
#[verifier::external_body]
fn text_cache_build(max_capacity: u64, ttl_secs: u64) -> (c: moka::sync::Cache<String, String>)
    requires
        ttl_secs <= MAX_TTL_SECS,
    ensures
        text_cache_entries(c) == no_entries(),
        text_cache_capacity(c) == max_capacity,
        text_cache_ttl_secs(c) == ttl_secs,
{
    moka::sync::Cache::builder()
        .max_capacity(max_capacity)
        .time_to_live(std::time::Duration::from_secs(ttl_secs))
        .build()
}

/// Looks a key up.
///
/// Trusted: calls `moka::sync::Cache::get`, which returns a clone of the
/// value stored for the key, or nothing. It never returns a value other than
/// the one written last for that key; it may return nothing for a key that
/// was written.
#[verifier::external_body]
fn text_cache_get(c: &moka::sync::Cache<String, String>, key: &str) -> (r: Option<String>)
    ensures
        r matches Some(v) ==> text_cache_entries(*c).contains_key(key@) && text_cache_entries(
            *c,
        )[key@] == v@,
{
    c.get(key)
}

/// One cache of rendered artifacts, keyed by the artifact's identity.
pub struct ArtifactCache {
    store: moka::sync::Cache<String, String>,
    limits: CachePolicy,
}

impl ArtifactCache {
    /// The limits on record are those of the store, and the store accepts
    /// them.
    #[verifier::type_invariant]
    spec fn inv(&self) -> bool {
        &&& self.limits.max_capacity == text_cache_capacity(self.store)
        &&& self.limits.ttl_secs == text_cache_ttl_secs(self.store)
        &&& self.limits.ttl_secs <= MAX_TTL_SECS
    }

    /// What was written since the cache was built or last invalidated, for
    /// each key the value written last.
    pub closed spec fn entries(&self) -> Map<Seq<char>, Seq<char>> {
        text_cache_entries(self.store)
    }

    /// The limits that the cache's store was built with.
    pub closed spec fn policy(&self) -> CachePolicy {
        CachePolicy {
            max_capacity: text_cache_capacity(self.store),
            ttl_secs: text_cache_ttl_secs(self.store),
        }
    }

    /// Writes a value for a key into the store.
    ///
    /// Trusted: calls `moka::sync::Cache::insert`, which stores the pair and
    /// replaces the value of a key that is present. It leaves the limits of
    /// the store as they were, and does not touch the record beside it.
    #[verifier::external_body]
    fn store_insert(&mut self, key: String, value: String)
        ensures
            text_cache_entries(final(self).store) == text_cache_entries(old(self).store).insert(
                key@,
                value@,
            ),
            text_cache_capacity(final(self).store) == text_cache_capacity(old(self).store),
            text_cache_ttl_secs(final(self).store) == text_cache_ttl_secs(old(self).store),
            final(self).limits == old(self).limits,
    {
        self.store.insert(key, value)
    }

    /// An empty cache whose store is built with the given limits.
    pub fn new(policy: CachePolicy) -> (c: ArtifactCache)
        requires
            policy.ttl_secs <= MAX_TTL_SECS,
        ensures
            c.entries() == no_entries(),
            c.policy() == policy,
    {
        ArtifactCache {
            store: text_cache_build(policy.max_capacity, policy.ttl_secs),
            limits: policy,
        }
    }

    /// The limits of the cache.
    pub fn limits(&self) -> (p: CachePolicy)
        ensures
            p == self.policy(),
            p.ttl_secs <= MAX_TTL_SECS,
    {
        proof {
            use_type_invariant(self);
        }
        self.limits
    }

    /// Looks a key up. A hit is a copy of exactly what was written last for
    /// the key; a miss is the signal to ask the node.
    pub fn get(&self, key: &str) -> (r: Option<String>)
        ensures
            r matches Some(v) ==> self.entries().contains_key(key@) && self.entries()[key@] == v@,
    {
        text_cache_get(&self.store, key)
    }

    /// Writes a value for a key, replacing what the key had.
    pub fn insert(&mut self, key: String, value: String)
        ensures
            final(self).entries() == old(self).entries().insert(key@, value@),
            final(self).policy() == old(self).policy(),
    {
        proof {
            use_type_invariant(&*self);
        }
        self.store_insert(key, value)
    }

    /// Discards everything, by putting a freshly built store with the same
    /// limits in the place of the old one: nothing that was written before
    /// can be returned afterwards, whenever it was written. (The store's
    /// own invalidation goes by the clock and keeps what was written in the
    /// very instant of the call.)
    pub fn invalidate_all(&mut self)
        ensures
            final(self).entries() == no_entries(),
            final(self).policy() == old(self).policy(),
    {
        proof {
            use_type_invariant(&*self);
        }
        self.store = text_cache_build(self.limits.max_capacity, self.limits.ttl_secs);
    }
}

/// What a request does once it has looked into the cache.
#[derive(Debug, Clone, PartialEq, Eq)]
pub enum AfterLookup {
    /// Answer with this body; the node is not asked.
    Serve(String),
    /// Ask the node, render the answer and offer it to the cache.
    Fetch,
}

/// The step that follows a lookup.
pub open spec fn step_after(found: Option<String>) -> AfterLookup {
    match found {
        Some(body) => AfterLookup::Serve(body),
        None => AfterLookup::Fetch,
    }
}

/// Decides what follows a lookup: a hit is served as it is, without asking
/// the node, and a miss, which is no error, is the signal to ask it.
pub fn after_lookup(found: Option<String>) -> (step: AfterLookup)
    ensures
        step == step_after(found),
{
    match found {
        Some(body) => AfterLookup::Serve(body),
        None => AfterLookup::Fetch,
    }
}

/// Entries of a cache after one admission attempt: the pair is written
/// if and only if the artifact is buried deeper than the safety margin.
pub open spec fn admitted(
    entries: Map<Seq<char>, Seq<char>>,
    key: Seq<char>,
    confirmations: int,
    value: Seq<char>,
) -> Map<Seq<char>, Seq<char>> {
    if is_cacheable(confirmations) {
        entries.insert(key, value)
    } else {
        entries
    }
}

impl ArtifactCache {
    /// Offers an artifact to the cache. It is written if and only if it has
    /// more confirmations than the safety margin; otherwise the cache is
    /// left exactly as it was.
    pub fn offer(&mut self, key: String, confirmations: i64, value: String) -> (stored: bool)
        ensures
            stored == is_cacheable(confirmations as int),
            final(self).entries() == admitted(
                old(self).entries(),
                key@,
                confirmations as int,
                value@,
            ),
            final(self).policy() == old(self).policy(),
    {
        if confirmations > SAFETY_MARGIN {
            self.insert(key, value);
            true
        } else {
            false
        }
    }
}

/// The gateway's caches, one per artifact class. Values are rendered
/// artifacts; block heights are keyed by their decimal digits.
pub struct AppCache {
    /// Confirmed blocks by hash.
    pub blocks: ArtifactCache,
    /// Block hash by height.
    pub block_hash_by_height: ArtifactCache,
    /// Confirmed transactions by txid.
    pub transactions: ArtifactCache,
    /// Latest blocks list.
    pub latest_blocks: ArtifactCache,
    /// Network status.
    pub status: ArtifactCache,
    /// Masternode list.
    pub masternode_list: ArtifactCache,
}

impl AppCache {
    /// Whether every cache is empty.
    pub open spec fn is_empty(&self) -> bool {
        &&& self.blocks.entries() == no_entries()
        &&& self.block_hash_by_height.entries() == no_entries()
        &&& self.transactions.entries() == no_entries()
        &&& self.latest_blocks.entries() == no_entries()
        &&& self.status.entries() == no_entries()
        &&& self.masternode_list.entries() == no_entries()
    }

    /// Whether every cache has the policy of its class.
    pub open spec fn has_class_policies(&self) -> bool {
        &&& self.blocks.policy() == policy_of(ArtifactClass::Block)
        &&& self.block_hash_by_height.policy() == policy_of(ArtifactClass::BlockHash)
        &&& self.transactions.policy() == policy_of(ArtifactClass::Transaction)
        &&& self.latest_blocks.policy() == policy_of(ArtifactClass::LatestBlocks)
        &&& self.status.policy() == policy_of(ArtifactClass::Status)
        &&& self.masternode_list.policy() == policy_of(ArtifactClass::MasternodeList)
    }

    /// Empty caches, each with the policy of its class.
    pub fn new() -> (c: AppCache)
        ensures
            c.is_empty(),
            c.has_class_policies(),
    {
        AppCache {
            blocks: ArtifactCache::new(ArtifactClass::Block.policy()),
            block_hash_by_height: ArtifactCache::new(ArtifactClass::BlockHash.policy()),
            transactions: ArtifactCache::new(ArtifactClass::Transaction.policy()),
            latest_blocks: ArtifactCache::new(ArtifactClass::LatestBlocks.policy()),
            status: ArtifactCache::new(ArtifactClass::Status.policy()),
            masternode_list: ArtifactCache::new(ArtifactClass::MasternodeList.policy()),
        }
    }

    /// The cached rendering of a block, if the cache answers.
    pub fn cached_block(&self, hash: &str) -> (r: Option<String>)
        ensures
            r matches Some(v) ==> self.blocks.entries().contains_key(hash@)
                && self.blocks.entries()[hash@] == v@,
    {
        self.blocks.get(hash)
    }

    /// The cached hash of the block at a height, if the cache answers.
    pub fn cached_block_hash(&self, height: u64) -> (r: Option<String>)
        ensures
            r matches Some(v) ==> self.block_hash_by_height.entries().contains_key(
                decimal_digits(height as nat),
            ) && self.block_hash_by_height.entries()[decimal_digits(height as nat)] == v@,
    {
        let key = u64_text(height);
        self.block_hash_by_height.get(key.as_str())
    }

    /// Offers a freshly rendered block. A block with more confirmations than
    /// the safety margin is written under its hash, and its hash under its
    /// height; any other block changes nothing.
    pub fn remember_block(&mut self, hash: &str, height: u64, confirmations: i64, body: String) -> (stored:
        bool)
        ensures
            stored == is_cacheable(confirmations as int),
            final(self).blocks.entries() == admitted(
                old(self).blocks.entries(),
                hash@,
                confirmations as int,
                body@,
            ),
            final(self).block_hash_by_height.entries() == admitted(
                old(self).block_hash_by_height.entries(),
                decimal_digits(height as nat),
                confirmations as int,
                hash@,
            ),
            final(self).transactions == old(self).transactions,
            final(self).latest_blocks == old(self).latest_blocks,
            final(self).status == old(self).status,
            final(self).masternode_list == old(self).masternode_list,
            final(self).blocks.policy() == old(self).blocks.policy(),
            final(self).block_hash_by_height.policy() == old(self).block_hash_by_height.policy(),
    {
        let stored = self.blocks.offer(String::from_str(hash), confirmations, body);
        let _ = self.block_hash_by_height.offer(
            u64_text(height),
            confirmations,
            String::from_str(hash),
        );
        stored
    }

    /// The cached rendering of a transaction, if the cache answers.
    pub fn cached_transaction(&self, txid: &str) -> (r: Option<String>)
        ensures
            r matches Some(v) ==> self.transactions.entries().contains_key(txid@)
                && self.transactions.entries()[txid@] == v@,
    {
        self.transactions.get(txid)
    }

    /// Offers a freshly rendered transaction. One that is not in a block yet
    /// counts as having no confirmations.
    pub fn remember_transaction(&mut self, txid: &str, confirmations: Option<i64>, body: String) -> (stored:
        bool)
        ensures
            stored == is_cacheable(confirmations_or_zero(confirmations)),
            final(self).transactions.entries() == admitted(
                old(self).transactions.entries(),
                txid@,
                confirmations_or_zero(confirmations),
                body@,
            ),
            final(self).blocks == old(self).blocks,
            final(self).block_hash_by_height == old(self).block_hash_by_height,
            final(self).latest_blocks == old(self).latest_blocks,
            final(self).status == old(self).status,
            final(self).masternode_list == old(self).masternode_list,
            final(self).transactions.policy() == old(self).transactions.policy(),
    {
        let depth: i64 = match confirmations {
            Some(c) => c,
            None => 0,
        };
        self.transactions.offer(String::from_str(txid), depth, body)
    }

    /// The cached status snapshot, if the cache answers.
    pub fn cached_status(&self) -> (r: Option<String>)
        ensures
            r matches Some(v) ==> self.status.entries().contains_key(status_key())
                && self.status.entries()[status_key()] == v@,
    {
        self.status.get("status")
    }

    /// Writes the status snapshot; it has no depth to wait for, its short
    /// time to live keeps it fresh.
    pub fn remember_status(&mut self, body: String)
        ensures
            final(self).status.entries() == old(self).status.entries().insert(status_key(), body@),
            final(self).status.policy() == old(self).status.policy(),
            final(self).blocks == old(self).blocks,
            final(self).block_hash_by_height == old(self).block_hash_by_height,
            final(self).transactions == old(self).transactions,
            final(self).latest_blocks == old(self).latest_blocks,
            final(self).masternode_list == old(self).masternode_list,
    {
        self.status.insert(String::from_str("status"), body)
    }

    /// Discards what was derived from the tip: the latest blocks and the
    /// status snapshot. Called whenever new blocks were found.
    pub fn invalidate_tip(&mut self)
        ensures
            final(self).latest_blocks.entries() == no_entries(),
            final(self).status.entries() == no_entries(),
            final(self).latest_blocks.policy() == old(self).latest_blocks.policy(),
            final(self).status.policy() == old(self).status.policy(),
            final(self).blocks == old(self).blocks,
            final(self).block_hash_by_height == old(self).block_hash_by_height,
            final(self).transactions == old(self).transactions,
            final(self).masternode_list == old(self).masternode_list,
    {
        self.latest_blocks.invalidate_all();
        self.status.invalidate_all();
    }
}

/// Confirmations of a transaction, zero while it is in no block.
pub open spec fn confirmations_or_zero(confirmations: Option<i64>) -> int {
    match confirmations {
        Some(c) => c as int,
        None => 0,
    }
}

/// One request for an artifact: its key, the confirmations it has when it
/// is fetched, and its rendering.
pub struct Admission {
    pub key: Seq<char>,
    pub confirmations: int,
    pub value: Seq<char>,
}

/// Entries of a cache after a run of admission attempts, first to last.
pub open spec fn after_admissions(
    entries: Map<Seq<char>, Seq<char>>,
    requests: Seq<Admission>,
) -> Map<Seq<char>, Seq<char>>
    decreases requests.len(),
{
    if requests.len() == 0 {
        entries
    } else {
        let last = requests.last();
        admitted(
            after_admissions(entries, requests.drop_last()),
            last.key,
            last.confirmations,
            last.value,
        )
    }
}

/// However often an artifact is requested while it has no more
/// confirmations than the safety margin, the requests never populate the
/// cache for its key: the key is present afterwards only if it was before,
/// and then with the value it had.
pub proof fn lemma_shallow_requests_never_populate(
    entries: Map<Seq<char>, Seq<char>>,
    requests: Seq<Admission>,
    key: Seq<char>,
)
    requires
        forall|i: int|
            0 <= i < requests.len() && requests[i].key == key ==> requests[i].confirmations
                <= SAFETY_MARGIN as int,
    ensures
        after_admissions(entries, requests).contains_key(key) == entries.contains_key(key),
        entries.contains_key(key) ==> after_admissions(entries, requests)[key] == entries[key],
    decreases requests.len(),
{
    if requests.len() > 0 {
        let front = requests.drop_last();
        assert forall|i: int| 0 <= i < front.len() && front[i].key == key implies front[i].confirmations
            <= SAFETY_MARGIN as int by {
            assert(front[i] == requests[i]);
        }
        lemma_shallow_requests_never_populate(entries, front, key);
    }
}

/// Once an artifact with more confirmations than the safety margin has been
/// offered, its key holds exactly its rendering, so any hit for the key
/// returns that rendering and no other.
pub proof fn lemma_confirmed_artifact_is_kept(
    entries: Map<Seq<char>, Seq<char>>,
    key: Seq<char>,
    confirmations: int,
    value: Seq<char>,
)
    requires
        confirmations > SAFETY_MARGIN as int,
    ensures
        admitted(entries, key, confirmations, value).contains_key(key),
        admitted(entries, key, confirmations, value)[key] == value,
        forall|other: Seq<char>|
            other != key ==> admitted(entries, key, confirmations, value).contains_key(other)
                == entries.contains_key(other),
{
}

/// A request that finds a confirmed artifact in the cache is answered with
/// exactly the body that was offered, and the node is not asked: whatever
/// a lookup within the entries finds for the key, the step after it serves
/// that body.
pub proof fn lemma_hit_is_served_without_fetch(
    entries: Map<Seq<char>, Seq<char>>,
    key: Seq<char>,
    confirmations: int,
    value: Seq<char>,
    found: Option<String>,
)
    requires
        confirmations > SAFETY_MARGIN as int,
        found matches Some(body) ==> admitted(entries, key, confirmations, value).contains_key(
            key,
        ) && admitted(entries, key, confirmations, value)[key] == body@,
    ensures
        found matches Some(body) ==> step_after(found) == AfterLookup::Serve(body) && body@
            == value,
        found is None ==> step_after(found) == AfterLookup::Fetch,
{
}

/// Invalidating a cache that is already empty changes nothing: what
/// `invalidate_all` leaves, `after`, is then what it found, `before`. And
/// invalidating twice leaves what invalidating once left.
pub proof fn lemma_invalidate_empty_is_noop(
    before: Map<Seq<char>, Seq<char>>,
    after: Map<Seq<char>, Seq<char>>,
    again: Map<Seq<char>, Seq<char>>,
)
    requires
        after == no_entries(),
        again == no_entries(),
    ensures
        before == no_entries() ==> after == before,
        again == after,
{
}

/// Writing the same key twice replaces the first value: the result is the
/// same as writing the second value alone, and the key is there once.
pub proof fn lemma_insert_twice_replaces(
    entries: Map<Seq<char>, Seq<char>>,
    key: Seq<char>,
    first: Seq<char>,
    second: Seq<char>,
)
    ensures
        entries.insert(key, first).insert(key, second) == entries.insert(key, second),
        entries.insert(key, first).insert(key, second).dom() == entries.dom().insert(key),
        entries.insert(key, first).insert(key, second)[key] == second,
{
    assert(entries.insert(key, first).insert(key, second) =~= entries.insert(key, second));
    assert(entries.insert(key, first).insert(key, second).dom() =~= entries.dom().insert(key));
}

} // verus!
