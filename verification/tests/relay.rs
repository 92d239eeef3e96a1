use scp::relay::cache::WarmCache;
use scp::relay::mailbox::{
    burst_len_within_bound, encode_poll_request, encode_poll_response, encode_store_request, hex,
    poll_count_within_bound, MailboxStore, MAX_BURSTS_PER_POLL, MAX_BURST_BYTES, MAX_QUEUE_DEPTH,
};
use scp::relay::mesh::{discover_relays, relay_scheme, BootstrapConfig, RelayNode, RelayScheme};
use scp::relay::perturbation::{PerturbationEngine, MAX_JITTER_MS};
use std::time::Duration;

#[test]
fn mailbox_store_then_drain_returns_bursts_in_order() {
    let mut store = MailboxStore::new();
    let token = [1u8; 32];
    store.store(token, vec![1]);
    store.store(token, vec![2, 2]);
    store.store([2u8; 32], vec![9]);
    assert_eq!(store.drain(&token), vec![vec![1], vec![2, 2]]);
    assert!(store.drain(&token).is_empty());
    assert_eq!(store.drain(&[2u8; 32]), vec![vec![9]]);
}

#[test]
fn mailbox_queue_drops_oldest_when_full() {
    let mut store = MailboxStore::new();
    let token = [3u8; 32];
    for i in 0..(MAX_QUEUE_DEPTH + 2) {
        store.store(token, vec![i as u8]);
    }
    let bursts = store.drain(&token);
    assert_eq!(bursts.len(), MAX_QUEUE_DEPTH);
    assert_eq!(bursts[0], vec![2u8]);
    assert_eq!(bursts[MAX_QUEUE_DEPTH - 1], vec![(MAX_QUEUE_DEPTH + 1) as u8]);
}

#[test]
fn relay_request_encodings() {
    let token = [0xabu8; 32];
    let store = encode_store_request(&token, b"hi");
    assert_eq!(store[0], 0x01);
    assert_eq!(&store[1..33], &token[..]);
    assert_eq!(&store[33..37], &[2, 0, 0, 0]);
    assert_eq!(&store[37..], b"hi");
    let poll = encode_poll_request(&token);
    assert_eq!(poll.len(), 33);
    assert_eq!(poll[0], 0x02);
    let response = encode_poll_response(&vec![vec![7u8], vec![8u8, 9]]);
    assert_eq!(response, vec![2, 0, 0, 0, 1, 0, 0, 0, 7, 2, 0, 0, 0, 8, 9]);
    assert_eq!(encode_poll_response(&Vec::new()), vec![0, 0, 0, 0]);
}

#[test]
fn relay_bounds() {
    assert!(burst_len_within_bound(MAX_BURST_BYTES as u32));
    assert!(!burst_len_within_bound(MAX_BURST_BYTES as u32 + 1));
    assert!(poll_count_within_bound(MAX_BURSTS_PER_POLL as u32));
    assert!(!poll_count_within_bound(MAX_BURSTS_PER_POLL as u32 + 1));
    assert_eq!(hex(&[0x0f, 0xa0]), "0fa0");
}

#[test]
fn warm_cache_retains_and_purges() {
    let mut cache = WarmCache::new(Duration::from_secs(600));
    assert_eq!(cache.default_ttl(), Duration::from_secs(600));
    cache.retain(&[1u8; 16], &[5u8; 32]);
    assert_eq!(cache.get(&[1u8; 16]), Some([5u8; 32]));
    assert_eq!(cache.get(&[2u8; 16]), None);
    cache.retain(&[1u8; 16], &[6u8; 32]);
    assert_eq!(cache.get(&[1u8; 16]), Some([6u8; 32]));
    cache.purge();
    assert_eq!(cache.get(&[1u8; 16]), None);
}

#[test]
fn warm_cache_evicts_cold_entries() {
    let mut cache = WarmCache::new(Duration::from_secs(600));
    cache.retain(&[1u8; 16], &[5u8; 32]);
    assert_eq!(cache.get_at(&[1u8; 16], true), Some([5u8; 32]));
    assert_eq!(cache.get_at(&[1u8; 16], false), None);
    assert_eq!(cache.get_at(&[1u8; 16], true), None);
}

#[test]
fn zero_ttl_cache_entry_is_not_warm() {
    let mut cache = WarmCache::new(Duration::from_secs(0));
    cache.retain(&[1u8; 16], &[5u8; 32]);
    assert_eq!(cache.get(&[1u8; 16]), None);
}

#[test]
fn normalize_pads_to_bucket() {
    let engine = PerturbationEngine::new(Duration::ZERO);
    assert_eq!(engine.normalize_payload(&[]).len(), 256);
    assert_eq!(engine.normalize_payload(&[1u8; 256]).len(), 256);
    let out = engine.normalize_payload(&[1u8; 257]);
    assert_eq!(out.len(), 512);
    assert_eq!(out[256], 1);
    assert!(out[257..].iter().all(|b| *b == 0));
}

#[test]
fn jitter_stays_within_bound() {
    let engine = PerturbationEngine::new(Duration::from_millis(MAX_JITTER_MS));
    for _ in 0..20 {
        assert!(engine.jitter_delay() <= Duration::from_millis(MAX_JITTER_MS));
    }
    assert_eq!(PerturbationEngine::passthrough().jitter_delay(), Duration::ZERO);
    assert_eq!(PerturbationEngine::new(Duration::from_micros(900)).jitter_delay(), Duration::ZERO);
}

#[test]
fn relay_schemes_are_read_from_prefix() {
    assert_eq!(relay_scheme("local://loopback"), RelayScheme::Local);
    assert_eq!(relay_scheme("noise://127.0.0.1:7700"), RelayScheme::Noise);
    assert_eq!(relay_scheme("127.0.0.1:7700"), RelayScheme::Plain);
    assert_eq!(relay_scheme("noise:/"), RelayScheme::Plain);
}

#[test]
fn bootstrap_lists_are_shuffled_permutations() {
    let relays = discover_relays().unwrap();
    assert_eq!(relays.len(), 1);
    assert_eq!(relays[0].endpoint, "local://loopback");
    let nodes: Vec<RelayNode> =
        (0..5u8).map(|i| RelayNode { id: [i; 16], endpoint: format!("127.0.0.1:77{i:02}") }).collect();
    let config = BootstrapConfig::with_relays(nodes);
    let mut ids: Vec<u8> = config.shuffled_relays().iter().map(|n| n.id[0]).collect();
    ids.sort();
    assert_eq!(ids, vec![0, 1, 2, 3, 4]);
    assert_eq!(BootstrapConfig::local_only().shuffled_relays()[0].id, [0u8; 16]);
}

#[test]
fn passthrough_engine_does_not_normalize() {
    let engine = PerturbationEngine::passthrough();
    assert!(engine.normalize_payload(&[]).is_empty());
    assert_eq!(engine.normalize_payload(&[1u8; 257]), vec![1u8; 257]);
    assert_eq!(engine.jitter_delay(), Duration::ZERO);
}
