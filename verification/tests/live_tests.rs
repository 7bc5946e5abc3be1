use dashbook::bus::{EventBus, RecvOutcome};
use dashbook::cache::AppCache;
use dashbook::live::{
    announce_blocks, apply_tip, new_block_event, LiveEvent, LiveUpdater, MempoolSample,
    MEMPOOL_EVERY, POLL_INTERVAL_SECS,
};
use dashbook::rpc::types::{BlockTxs, NodeNumber, RpcBlock, RpcCbTxPayload};

fn block_at(height: u64) -> RpcBlock {
    RpcBlock {
        hash: format!("hash-{height}"),
        confirmations: 1,
        height,
        version: 2,
        version_hex: None,
        merkleroot: "m".to_string(),
        time: 1_700_000_000 + height,
        mediantime: 1_700_000_000,
        nonce: 0,
        bits: "1d00ffff".to_string(),
        difficulty: NodeNumber { bits: 0 },
        chainwork: "00".to_string(),
        n_tx: 3,
        previous_block_hash: None,
        next_block_hash: None,
        chainlock: true,
        size: Some(100),
        cb_tx: Some(RpcCbTxPayload {
            version: 3,
            height,
            merkle_root_mn_list: "a".to_string(),
            merkle_root_quorums: "b".to_string(),
            best_cl_height_diff: 0,
            best_cl_signature: "c".to_string(),
            credit_pool_balance: NodeNumber { bits: 0x4059_0000_0000_0000 },
        }),
        tx: BlockTxs::Absent,
    }
}

fn heights_of(updater: &mut LiveUpdater, tip: u64) -> Vec<u64> {
    let plan = updater.observe_tip(tip);
    (0..plan.len()).map(|i| plan.height_at(i)).collect()
}

#[test]
fn poll_constants() {
    assert_eq!(POLL_INTERVAL_SECS, 2);
    assert_eq!(MEMPOOL_EVERY, 5);
}

#[test]
fn the_first_observation_only_sets_the_baseline() {
    let mut updater = LiveUpdater::new();
    assert_eq!(updater.last_height(), None);
    let plan = updater.observe_tip(1_000_000);
    assert_eq!(plan.len(), 0);
    assert!(!plan.found_blocks());
    assert_eq!(updater.last_height(), Some(1_000_000));
}

#[test]
fn an_advance_by_three_plans_three_heights_ascending() {
    let mut updater = LiveUpdater::new();
    assert_eq!(heights_of(&mut updater, 500), Vec::<u64>::new());
    assert_eq!(heights_of(&mut updater, 503), vec![501, 502, 503]);
    assert_eq!(updater.last_height(), Some(503));
    assert_eq!(heights_of(&mut updater, 503), Vec::<u64>::new());
    assert_eq!(heights_of(&mut updater, 504), vec![504]);
}

#[test]
fn an_advance_by_three_emits_exactly_three_new_block_events() {
    let mut updater = LiveUpdater::new();
    let mut bus = EventBus::new(16);
    let mut cache = AppCache::new();
    let mut sub = bus.subscribe();
    updater.observe_tip(700);
    let plan = updater.observe_tip(703);
    let fetched: Vec<Option<RpcBlock>> =
        (0..plan.len()).map(|i| Some(block_at(plan.height_at(i)))).collect();
    assert_eq!(apply_tip(&mut bus, &mut cache, &plan, &fetched), 3);
    let mut heights = Vec::new();
    loop {
        match bus.recv(&mut sub) {
            RecvOutcome::Event(LiveEvent::NewBlock { height, .. }) => heights.push(height),
            RecvOutcome::Empty => break,
            other => panic!("unexpected {other:?}"),
        }
    }
    assert_eq!(heights, vec![701, 702, 703]);
}

#[test]
fn a_failed_fetch_is_skipped_and_progress_is_kept() {
    let mut updater = LiveUpdater::new();
    let mut bus = EventBus::new(16);
    let mut sub = bus.subscribe();
    updater.observe_tip(10);
    let plan = updater.observe_tip(13);
    assert_eq!(plan.len(), 3);
    let fetched = vec![Some(block_at(11)), None, Some(block_at(13))];
    assert_eq!(announce_blocks(&mut bus, &fetched), 2);
    assert_eq!(bus.recv(&mut sub), RecvOutcome::Event(new_block_event(&block_at(11))));
    assert_eq!(bus.recv(&mut sub), RecvOutcome::Event(new_block_event(&block_at(13))));
    assert_eq!(bus.recv(&mut sub), RecvOutcome::Empty);
    assert_eq!(updater.last_height(), Some(13));
    assert_eq!(updater.observe_tip(13).len(), 0);
}

#[test]
fn a_tip_that_falls_back_plans_nothing_but_is_recorded() {
    let mut updater = LiveUpdater::new();
    updater.observe_tip(100);
    assert_eq!(heights_of(&mut updater, 98), Vec::<u64>::new());
    assert_eq!(updater.last_height(), Some(98));
    assert_eq!(heights_of(&mut updater, 100), vec![99, 100]);
}

#[test]
fn a_baseline_at_height_zero_is_a_baseline() {
    let mut updater = LiveUpdater::new();
    assert_eq!(heights_of(&mut updater, 0), Vec::<u64>::new());
    assert_eq!(updater.last_height(), Some(0));
    assert_eq!(heights_of(&mut updater, 2), vec![1, 2]);
    assert_eq!(updater.last_height(), Some(2));
    assert_eq!(heights_of(&mut updater, 2), Vec::<u64>::new());
}

#[test]
fn an_advance_from_a_baseline_of_zero_announces_and_invalidates() {
    let mut updater = LiveUpdater::new();
    let mut bus = EventBus::new(16);
    let mut cache = AppCache::new();
    let mut sub = bus.subscribe();
    cache.remember_status("before".to_string());
    cache.latest_blocks.insert("latest".to_string(), "before".to_string());
    assert_eq!(updater.observe_tip(0).len(), 0);
    let plan = updater.observe_tip(2);
    assert!(plan.found_blocks());
    let fetched: Vec<Option<RpcBlock>> =
        (0..plan.len()).map(|i| Some(block_at(plan.height_at(i)))).collect();
    assert_eq!(apply_tip(&mut bus, &mut cache, &plan, &fetched), 2);
    assert_eq!(bus.recv(&mut sub), RecvOutcome::Event(new_block_event(&block_at(1))));
    assert_eq!(bus.recv(&mut sub), RecvOutcome::Event(new_block_event(&block_at(2))));
    assert_eq!(bus.recv(&mut sub), RecvOutcome::Empty);
    assert_eq!(cache.cached_status(), None);
    assert_eq!(cache.latest_blocks.get("latest"), None);
}

#[test]
fn a_tip_that_stays_at_zero_plans_nothing() {
    let mut updater = LiveUpdater::new();
    assert_eq!(heights_of(&mut updater, 0), Vec::<u64>::new());
    assert_eq!(heights_of(&mut updater, 0), Vec::<u64>::new());
    assert_eq!(heights_of(&mut updater, 1), vec![1]);
}

#[test]
fn the_highest_tip_is_planned_without_overflow() {
    let mut updater = LiveUpdater::new();
    updater.observe_tip(u64::MAX - 2);
    assert_eq!(heights_of(&mut updater, u64::MAX), vec![u64::MAX - 1, u64::MAX]);
}

#[test]
fn the_mempool_is_sampled_on_every_fifth_tick() {
    let mut updater = LiveUpdater::new();
    let due: Vec<bool> = (0..12).map(|_| updater.begin_tick()).collect();
    assert_eq!(
        due,
        vec![false, false, false, false, true, false, false, false, false, true, false, false]
    );
}

#[test]
fn a_mempool_event_is_emitted_only_when_the_size_changes() {
    let mut updater = LiveUpdater::new();
    let fee = NodeNumber { bits: 7 };
    assert_eq!(updater.observe_mempool(0, 0, fee), None);
    assert_eq!(
        updater.observe_mempool(12, 3400, fee),
        Some(LiveEvent::MempoolUpdate { size: 12, bytes: 3400, total_fee: fee })
    );
    assert_eq!(updater.last_mempool_size(), 12);
    assert_eq!(updater.observe_mempool(12, 9999, fee), None);
    assert_eq!(
        updater.observe_mempool(11, 1, fee),
        Some(LiveEvent::MempoolUpdate { size: 11, bytes: 1, total_fee: fee })
    );
}

#[test]
fn new_blocks_invalidate_the_tip_caches_even_if_every_fetch_failed() {
    let mut updater = LiveUpdater::new();
    let mut bus = EventBus::new(4);
    let mut cache = AppCache::new();
    cache.remember_status("old".to_string());
    cache.latest_blocks.insert("latest".to_string(), "old".to_string());
    assert!(cache.remember_block("h", 1, 50, "body".to_string()));
    updater.observe_tip(20);
    let plan = updater.observe_tip(21);
    assert_eq!(apply_tip(&mut bus, &mut cache, &plan, &vec![None]), 0);
    assert_eq!(cache.cached_status(), None);
    assert_eq!(cache.latest_blocks.get("latest"), None);
    assert_eq!(cache.cached_block("h"), Some("body".to_string()));
}

#[test]
fn no_new_block_leaves_the_tip_caches_alone() {
    let mut updater = LiveUpdater::new();
    let mut bus = EventBus::new(4);
    let mut cache = AppCache::new();
    cache.remember_status("kept".to_string());
    updater.observe_tip(20);
    let plan = updater.observe_tip(20);
    assert_eq!(apply_tip(&mut bus, &mut cache, &plan, &Vec::new()), 0);
    assert_eq!(cache.cached_status(), Some("kept".to_string()));
}

#[test]
fn the_event_of_a_block_carries_its_fields() {
    let event = new_block_event(&block_at(42));
    assert_eq!(
        event,
        LiveEvent::NewBlock {
            hash: "hash-42".to_string(),
            height: 42,
            time: 1_700_000_042,
            n_tx: 3,
            chainlock: true,
            credit_pool_balance: NodeNumber { bits: 0x4059_0000_0000_0000 },
        }
    );
    assert_eq!(event.duplicate(), event);
}

#[test]
fn a_block_without_coinbase_payload_announces_a_zero_balance() {
    let mut block = block_at(9);
    block.cb_tx = None;
    match new_block_event(&block) {
        LiveEvent::NewBlock { credit_pool_balance, .. } => {
            assert_eq!(credit_pool_balance, NodeNumber { bits: 0 });
            assert_eq!(f64::from_bits(credit_pool_balance.bits), 0.0);
        }
        other => panic!("unexpected {other:?}"),
    }
}

#[test]
fn a_closed_bus_takes_no_announcement() {
    let mut bus = EventBus::new(4);
    bus.close();
    assert_eq!(announce_blocks(&mut bus, &vec![Some(block_at(1))]), 0);
    assert_eq!(bus.published(), 0);
}

#[test]
fn a_failed_tip_query_plans_nothing_and_keeps_the_tip() {
    let mut updater = LiveUpdater::new();
    assert_eq!(updater.on_tip_query(None).len(), 0);
    assert_eq!(updater.last_height(), None);
    assert_eq!(updater.on_tip_query(Some(40)).len(), 0);
    assert_eq!(updater.last_height(), Some(40));
    let failed = updater.on_tip_query(None);
    assert_eq!(failed.len(), 0);
    assert!(!failed.found_blocks());
    assert_eq!(updater.last_height(), Some(40));
    let plan = updater.on_tip_query(Some(43));
    let heights: Vec<u64> = (0..plan.len()).map(|i| plan.height_at(i)).collect();
    assert_eq!(heights, vec![41, 42, 43]);
    assert_eq!(updater.last_height(), Some(43));
}

#[test]
fn a_failed_tip_query_invalidates_nothing() {
    let mut updater = LiveUpdater::new();
    let mut bus = EventBus::new(4);
    let mut cache = AppCache::new();
    cache.remember_status("kept".to_string());
    updater.on_tip_query(Some(10));
    let plan = updater.on_tip_query(None);
    assert_eq!(apply_tip(&mut bus, &mut cache, &plan, &Vec::new()), 0);
    assert_eq!(cache.cached_status(), Some("kept".to_string()));
    assert_eq!(bus.published(), 0);
}

#[test]
fn a_failed_mempool_query_yields_no_event_and_keeps_the_size() {
    let mut updater = LiveUpdater::new();
    let fee = NodeNumber { bits: 1 };
    assert_eq!(updater.on_mempool_query(None), None);
    assert_eq!(updater.last_mempool_size(), 0);
    assert_eq!(
        updater.on_mempool_query(Some(MempoolSample { size: 4, bytes: 90, total_fee: fee })),
        Some(LiveEvent::MempoolUpdate { size: 4, bytes: 90, total_fee: fee })
    );
    assert_eq!(updater.on_mempool_query(None), None);
    assert_eq!(updater.last_mempool_size(), 4);
    assert_eq!(
        updater.on_mempool_query(Some(MempoolSample { size: 4, bytes: 91, total_fee: fee })),
        None
    );
}
