use llm_sentinel::baseline::{BaselineKey, BaselineStore};
use llm_sentinel::types::{ModelId, ServiceId};

fn key(metric: &str) -> BaselineKey {
    BaselineKey::new(ServiceId::new("svc"), ModelId::new("gpt-4"), metric)
}

#[test]
fn store_push_reports_full_windows() {
    let mut store: BaselineStore<f64, usize> = BaselineStore::new(3);
    assert!(!store.push(key("latency_ms"), 1.0));
    assert!(!store.push(key("latency_ms"), 2.0));
    assert!(store.push(key("latency_ms"), 3.0));
    assert!(store.push(key("latency_ms"), 4.0));
    assert_eq!(store.values(&key("latency_ms")), &[2.0, 3.0, 4.0]);
    assert_eq!(store.len(), 1);
}

#[test]
fn store_keys_are_independent() {
    let mut store: BaselineStore<u64, u64> = BaselineStore::new(10);
    store.push(key("latency_ms"), 5);
    store.push(key("cost_usd"), 7);
    assert_eq!(store.values(&key("latency_ms")), &[5]);
    assert_eq!(store.values(&key("cost_usd")), &[7]);
    assert_eq!(store.values(&key("total_tokens")).len(), 0);
    assert_eq!(store.len(), 2);
}

#[test]
fn store_snapshots_follow_their_key() {
    let mut store: BaselineStore<u64, u64> = BaselineStore::new(2);
    assert_eq!(store.get(&key("latency_ms")), None);
    store.set_snapshot(&key("latency_ms"), 9);
    assert_eq!(store.get(&key("latency_ms")), None);
    store.push(key("latency_ms"), 1);
    store.set_snapshot(&key("latency_ms"), 9);
    assert_eq!(store.get(&key("latency_ms")), Some(&9));
    store.push(key("latency_ms"), 2);
    assert_eq!(store.get(&key("latency_ms")), Some(&9));
}

#[test]
fn store_clear_forgets_one_or_all() {
    let mut store: BaselineStore<u64, u64> = BaselineStore::new(2);
    store.push(key("a"), 1);
    store.push(key("b"), 2);
    store.clear(&key("a"));
    assert_eq!(store.len(), 1);
    assert_eq!(store.values(&key("a")).len(), 0);
    assert_eq!(store.values(&key("b")), &[2]);
    store.clear_all();
    assert_eq!(store.len(), 0);
    assert_eq!(store.window_size(), 2);
}

#[test]
fn pushed_value_is_newest_in_window() {
    let mut store: BaselineStore<u64, u64> = BaselineStore::new(4);
    for v in [10, 20, 30, 40, 1000] {
        store.push(key("latency_ms"), v);
        assert_eq!(*store.values(&key("latency_ms")).last().unwrap(), v);
    }
}

#[test]
fn single_event_leaves_no_baseline() {
    // Capacity 10, one latency of 1000: the window is not full, so no snapshot
    // exists and no detector has a baseline to consult.
    let mut store: BaselineStore<f64, usize> = BaselineStore::new(10);
    let full = store.push(key("latency_ms"), 1000.0);
    assert!(!full);
    assert_eq!(store.get(&key("latency_ms")), None);
    assert!(!llm_sentinel::detection::has_enough_samples(store.values(&key("latency_ms")).len()));
}

#[test]
fn latency_spike_scenario_is_critical() {
    let latencies = [95.0, 97.0, 100.0, 98.0, 102.0, 100.0, 99.0, 101.0, 103.0, 105.0];
    let mut store: BaselineStore<f64, usize> = BaselineStore::new(10);
    let mut full = false;
    for l in latencies {
        full = store.push(key("latency_ms"), l);
    }
    assert!(full);
    let window = store.values(&key("latency_ms"));
    assert!(llm_sentinel::detection::has_enough_samples(window.len()));
    let n = window.len() as f64;
    let mean = window.iter().sum::<f64>() / n;
    let sd = (window.iter().map(|x| (x - mean) * (x - mean)).sum::<f64>() / (n - 1.0)).sqrt();
    let z = (1000.0 - mean) / sd;
    assert!((mean - 100.0).abs() < 1e-9);
    assert_eq!(
        llm_sentinel::detection::severity_for_sigmas(z.abs().floor() as u64),
        llm_sentinel::types::Severity::Critical
    );
}
