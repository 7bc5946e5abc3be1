use dashbook::cache::{
    after_lookup, confirmation_depth, deep_enough, AfterLookup, AppCache, ArtifactCache, ArtifactClass, CachePolicy, MAX_TTL_SECS,
    SAFETY_MARGIN,
};

#[test]
fn safety_margin_is_six() {
    assert_eq!(SAFETY_MARGIN, 6);
}

#[test]
fn policies_follow_the_table() {
    assert_eq!(ArtifactClass::Block.policy(), CachePolicy { max_capacity: 1000, ttl_secs: 3600 });
    assert_eq!(
        ArtifactClass::BlockHash.policy(),
        CachePolicy { max_capacity: 10000, ttl_secs: 3600 }
    );
    assert_eq!(
        ArtifactClass::Transaction.policy(),
        CachePolicy { max_capacity: 5000, ttl_secs: 3600 }
    );
    assert_eq!(ArtifactClass::LatestBlocks.policy(), CachePolicy { max_capacity: 10, ttl_secs: 10 });
    assert_eq!(ArtifactClass::Status.policy(), CachePolicy { max_capacity: 5, ttl_secs: 5 });
    assert_eq!(
        ArtifactClass::MasternodeList.policy(),
        CachePolicy { max_capacity: 10, ttl_secs: 120 }
    );
}

#[test]
fn confirmation_depth_counts_both_ends() {
    assert_eq!(confirmation_depth(100, 100), 1);
    assert_eq!(confirmation_depth(100, 95), 6);
    assert_eq!(confirmation_depth(100, 94), 7);
    assert_eq!(confirmation_depth(100, 0), 101);
    assert_eq!(confirmation_depth(5, 9), 1);
    assert_eq!(confirmation_depth(u64::MAX, 0), u64::MAX);
    assert_eq!(confirmation_depth(u64::MAX, 1), u64::MAX);
}

#[test]
fn shallow_artifacts_never_populate_the_cache() {
    let mut cache = ArtifactCache::new(ArtifactClass::Block.policy());
    for depth in [i64::MIN, -1, 0, 1, 5, 6] {
        for _ in 0..5 {
            assert!(!cache.offer("hash-a".to_string(), depth, "body".to_string()));
            assert_eq!(cache.get("hash-a"), None);
        }
    }
}

#[test]
fn a_confirmed_artifact_is_served_identically() {
    let mut cache = ArtifactCache::new(ArtifactClass::Transaction.policy());
    let body = "{\"txid\":\"t1\",\"confirmations\":7}".to_string();
    assert!(cache.offer("t1".to_string(), 7, body.clone()));
    assert_eq!(cache.get("t1"), Some(body.clone()));
    assert_eq!(cache.get("t1"), Some(body));
    assert_eq!(cache.get("t2"), None);
}

#[test]
fn inserting_a_key_twice_replaces_the_value() {
    let mut cache = ArtifactCache::new(ArtifactClass::Block.policy());
    cache.insert("k".to_string(), "first".to_string());
    cache.insert("k".to_string(), "second".to_string());
    assert_eq!(cache.get("k"), Some("second".to_string()));
}

#[test]
fn invalidating_discards_everything_and_is_idempotent() {
    let mut cache = ArtifactCache::new(ArtifactClass::Status.policy());
    cache.invalidate_all();
    assert_eq!(cache.get("status"), None);
    cache.insert("status".to_string(), "s".to_string());
    assert_eq!(cache.get("status"), Some("s".to_string()));
    cache.invalidate_all();
    assert_eq!(cache.get("status"), None);
    cache.invalidate_all();
    assert_eq!(cache.get("status"), None);
}

#[test]
fn a_cache_accepts_the_longest_time_to_live() {
    let mut cache = ArtifactCache::new(CachePolicy { max_capacity: 3, ttl_secs: MAX_TTL_SECS });
    cache.insert("a".to_string(), "1".to_string());
    assert_eq!(cache.get("a"), Some("1".to_string()));
}

#[test]
fn blocks_are_remembered_only_beyond_the_margin() {
    let mut cache = AppCache::new();
    assert!(!cache.remember_block("h6", 10, 6, "b6".to_string()));
    assert_eq!(cache.cached_block("h6"), None);
    assert_eq!(cache.cached_block_hash(10), None);
    assert!(cache.remember_block("h7", 11, 7, "b7".to_string()));
    assert_eq!(cache.cached_block("h7"), Some("b7".to_string()));
    assert_eq!(cache.cached_block_hash(11), Some("h7".to_string()));
    assert_eq!(cache.cached_block_hash(10), None);
}

#[test]
fn unconfirmed_transactions_are_not_remembered() {
    let mut cache = AppCache::new();
    assert!(!cache.remember_transaction("t", None, "x".to_string()));
    assert!(!cache.remember_transaction("t", Some(6), "x".to_string()));
    assert_eq!(cache.cached_transaction("t"), None);
    assert!(cache.remember_transaction("t", Some(7), "y".to_string()));
    assert_eq!(cache.cached_transaction("t"), Some("y".to_string()));
}

#[test]
fn the_tip_invalidates_status_and_latest_blocks_only() {
    let mut cache = AppCache::new();
    cache.remember_status("s1".to_string());
    cache.latest_blocks.insert("latest".to_string(), "l1".to_string());
    cache.masternode_list.insert("list".to_string(), "m1".to_string());
    assert!(cache.remember_block("h", 1, 100, "b".to_string()));
    assert!(cache.remember_transaction("t", Some(100), "x".to_string()));
    assert_eq!(cache.cached_status(), Some("s1".to_string()));
    cache.invalidate_tip();
    assert_eq!(cache.cached_status(), None);
    assert_eq!(cache.latest_blocks.get("latest"), None);
    assert_eq!(cache.masternode_list.get("list"), Some("m1".to_string()));
    assert_eq!(cache.cached_block("h"), Some("b".to_string()));
    assert_eq!(cache.cached_transaction("t"), Some("x".to_string()));
    cache.invalidate_tip();
    assert_eq!(cache.cached_status(), None);
}

#[test]
fn only_a_depth_beyond_the_margin_allows_caching() {
    assert!(!deep_enough(100, 100));
    assert!(!deep_enough(100, 95));
    assert!(deep_enough(100, 94));
    assert!(deep_enough(100, 0));
    assert!(!deep_enough(5, 9));
    assert!(!deep_enough(5, 0));
    assert!(deep_enough(6, 0));
    assert!(deep_enough(u64::MAX, 0));
}

#[test]
fn what_was_written_just_before_an_invalidation_is_gone_too() {
    for _ in 0..200 {
        let mut cache = ArtifactCache::new(ArtifactClass::Status.policy());
        cache.insert("status".to_string(), "stale".to_string());
        cache.invalidate_all();
        assert_eq!(cache.get("status"), None);
        cache.insert("status".to_string(), "fresh".to_string());
        assert_eq!(cache.get("status"), Some("fresh".to_string()));
    }
}

#[test]
fn an_invalidated_cache_keeps_its_policy_at_work() {
    let mut cache = ArtifactCache::new(CachePolicy { max_capacity: 3, ttl_secs: MAX_TTL_SECS });
    cache.invalidate_all();
    cache.insert("a".to_string(), "1".to_string());
    assert_eq!(cache.get("a"), Some("1".to_string()));
}

#[test]
fn every_cache_is_built_with_the_limits_of_its_class() {
    let cache = AppCache::new();
    assert_eq!(cache.blocks.limits(), CachePolicy { max_capacity: 1000, ttl_secs: 3600 });
    assert_eq!(
        cache.block_hash_by_height.limits(),
        CachePolicy { max_capacity: 10000, ttl_secs: 3600 }
    );
    assert_eq!(cache.transactions.limits(), CachePolicy { max_capacity: 5000, ttl_secs: 3600 });
    assert_eq!(cache.latest_blocks.limits(), CachePolicy { max_capacity: 10, ttl_secs: 10 });
    assert_eq!(cache.status.limits(), CachePolicy { max_capacity: 5, ttl_secs: 5 });
    assert_eq!(cache.masternode_list.limits(), CachePolicy { max_capacity: 10, ttl_secs: 120 });
}

#[test]
fn the_limits_outlast_writes_and_invalidation() {
    let mut cache = ArtifactCache::new(CachePolicy { max_capacity: 7, ttl_secs: 9 });
    cache.insert("a".to_string(), "1".to_string());
    assert_eq!(cache.limits(), CachePolicy { max_capacity: 7, ttl_secs: 9 });
    cache.invalidate_all();
    assert_eq!(cache.limits(), CachePolicy { max_capacity: 7, ttl_secs: 9 });
}

#[test]
fn a_store_of_no_capacity_keeps_nothing_for_long() {
    let mut cache = ArtifactCache::new(CachePolicy { max_capacity: 0, ttl_secs: 3600 });
    cache.insert("a".to_string(), "1".to_string());
    let found = cache.get("a");
    assert!(found == None || found == Some("1".to_string()));
}

#[test]
fn the_caches_are_independent_of_each_other() {
    let mut cache = AppCache::new();
    assert!(cache.remember_block("same", 1, 9, "block".to_string()));
    assert_eq!(cache.cached_transaction("same"), None);
    assert!(cache.remember_transaction("same", Some(9), "tx".to_string()));
    assert_eq!(cache.cached_block("same"), Some("block".to_string()));
    assert_eq!(cache.cached_transaction("same"), Some("tx".to_string()));
    assert_eq!(cache.cached_status(), None);
}

#[test]
fn a_hit_is_served_and_a_miss_asks_the_node() {
    assert_eq!(after_lookup(Some("body".to_string())), AfterLookup::Serve("body".to_string()));
    assert_eq!(after_lookup(Some(String::new())), AfterLookup::Serve(String::new()));
    assert_eq!(after_lookup(None), AfterLookup::Fetch);
    let mut cache = AppCache::new();
    assert_eq!(after_lookup(cache.cached_transaction("t")), AfterLookup::Fetch);
    assert!(cache.remember_transaction("t", Some(7), "rendered".to_string()));
    assert_eq!(
        after_lookup(cache.cached_transaction("t")),
        AfterLookup::Serve("rendered".to_string())
    );
}
