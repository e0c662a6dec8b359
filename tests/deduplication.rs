use llm_sentinel::deduplication::{AlertDeduplicator, DeduplicationConfig, DeduplicationKey};
use llm_sentinel::types::{AnomalyType, ModelId, ServiceId, Severity};

fn key(severity: Severity, anomaly_type: AnomalyType) -> DeduplicationKey {
    DeduplicationKey::new(
        ServiceId::new("test-service"),
        ModelId::new("gpt-4"),
        anomaly_type,
        severity,
    )
}

#[test]
fn test_deduplication_key_creation() {
    let key = key(Severity::High, AnomalyType::LatencySpike);

    assert_eq!(key.service.as_str(), "test-service");
    assert_eq!(key.model.as_str(), "gpt-4");
    assert_eq!(key.severity, Severity::High);
    assert_eq!(key.anomaly_type, AnomalyType::LatencySpike);
}

#[test]
fn test_deduplication_first_alert_sent() {
    let config = DeduplicationConfig { enabled: true, window_secs: 300, cleanup_interval_secs: 60 };
    let mut deduplicator = AlertDeduplicator::new(config);
    assert!(deduplicator.should_send(key(Severity::High, AnomalyType::LatencySpike), "a1".to_string()));
}

#[test]
fn test_deduplication_duplicate_suppressed() {
    let config = DeduplicationConfig { enabled: true, window_secs: 300, cleanup_interval_secs: 60 };
    let mut deduplicator = AlertDeduplicator::new(config);
    assert!(deduplicator.should_send(key(Severity::High, AnomalyType::LatencySpike), "a1".to_string()));
    assert!(!deduplicator.should_send(key(Severity::High, AnomalyType::LatencySpike), "a2".to_string()));
}

#[test]
fn test_deduplication_different_severity_not_deduplicated() {
    let mut deduplicator = AlertDeduplicator::new(DeduplicationConfig::default());
    assert!(deduplicator.should_send(key(Severity::High, AnomalyType::LatencySpike), "a1".to_string()));
    assert!(deduplicator.should_send(key(Severity::Critical, AnomalyType::LatencySpike), "a2".to_string()));
}

#[test]
fn test_deduplication_different_type_not_deduplicated() {
    let mut deduplicator = AlertDeduplicator::new(DeduplicationConfig::default());
    assert!(deduplicator.should_send(key(Severity::High, AnomalyType::LatencySpike), "a1".to_string()));
    assert!(deduplicator.should_send(key(Severity::High, AnomalyType::CostAnomaly), "a2".to_string()));
}

#[test]
fn test_deduplication_stats() {
    let mut deduplicator = AlertDeduplicator::new(DeduplicationConfig::default());
    deduplicator.should_send(key(Severity::High, AnomalyType::LatencySpike), "a1".to_string());
    deduplicator.should_send(key(Severity::High, AnomalyType::LatencySpike), "a2".to_string());
    deduplicator.should_send(key(Severity::High, AnomalyType::LatencySpike), "a3".to_string());

    let stats = deduplicator.get_stats();
    assert_eq!(stats.total_signatures, 1);
    assert_eq!(stats.total_deduplicated, 2);
}

#[test]
fn test_deduplication_disabled() {
    let config = DeduplicationConfig { enabled: false, window_secs: 300, cleanup_interval_secs: 60 };
    let mut deduplicator = AlertDeduplicator::new(config);
    assert!(deduplicator.should_send(key(Severity::High, AnomalyType::LatencySpike), "a1".to_string()));
    assert!(deduplicator.should_send(key(Severity::High, AnomalyType::LatencySpike), "a2".to_string()));
    assert_eq!(deduplicator.entry_count(), 0);
}

#[test]
fn test_cleanup_expired() {
    let config = DeduplicationConfig { enabled: true, window_secs: 1, cleanup_interval_secs: 60 };
    let mut deduplicator = AlertDeduplicator::new(config);
    let t0: i64 = 1_700_000_000_000;
    deduplicator.should_send_at(key(Severity::High, AnomalyType::LatencySpike), "a1".to_string(), t0);
    assert_eq!(deduplicator.entry_count(), 1);

    deduplicator.cleanup_expired_at(t0 + 2_000);
    assert_eq!(deduplicator.entry_count(), 0);
}

#[test]
fn suppression_within_window_counts_every_repeat() {
    let config = DeduplicationConfig { enabled: true, window_secs: 300, cleanup_interval_secs: 60 };
    let mut d = AlertDeduplicator::new(config);
    let k = || DeduplicationKey::new(ServiceId::new("svc-A"), ModelId::new("gpt-4"), AnomalyType::LatencySpike, Severity::High);
    let t0: i64 = 1_000_000;
    let n = 7;
    assert!(d.should_send_at(k(), "id0".to_string(), t0));
    for i in 1..n {
        assert!(!d.should_send_at(k(), format!("id{}", i), t0 + i * 10_000));
    }
    let stats = d.get_stats();
    assert_eq!(stats.total_signatures, 1);
    assert_eq!(stats.total_deduplicated, (n - 1) as u64);
    assert_eq!(stats.by_severity.get(Severity::High), (n - 1) as u64);
    assert_eq!(stats.by_severity.get(Severity::Low), 0);
}

#[test]
fn alert_sent_again_after_window_expires() {
    let config = DeduplicationConfig { enabled: true, window_secs: 1, cleanup_interval_secs: 60 };
    let mut d = AlertDeduplicator::new(config);
    let t0: i64 = 5_000;
    assert!(d.should_send_at(key(Severity::High, AnomalyType::LatencySpike), "a".to_string(), t0));
    assert!(d.should_send_at(key(Severity::High, AnomalyType::LatencySpike), "b".to_string(), t0 + 2_000));
    assert_eq!(d.get_stats().total_deduplicated, 0);
    d.cleanup_expired_at(t0 + 4_500);
    assert_eq!(d.get_stats().total_deduplicated, 0);
    assert_eq!(d.entry_count(), 0);
}

#[test]
fn window_expires_strictly_after_its_length() {
    let config = DeduplicationConfig { enabled: true, window_secs: 1, cleanup_interval_secs: 60 };
    let mut d = AlertDeduplicator::new(config);
    assert!(d.should_send_at(key(Severity::Low, AnomalyType::CostAnomaly), "a".to_string(), 0));
    // Exactly the window after the previous observation: still inside it.
    assert!(!d.should_send_at(key(Severity::Low, AnomalyType::CostAnomaly), "b".to_string(), 1_000));
    // 1.5 s after the previous observation: strictly after the window, sent.
    assert!(d.should_send_at(key(Severity::Low, AnomalyType::CostAnomaly), "c".to_string(), 2_500));
    // 1.001 s later: sent again.
    assert!(d.should_send_at(key(Severity::Low, AnomalyType::CostAnomaly), "d".to_string(), 3_501));
}

#[test]
fn cleanup_drops_entries_just_past_the_window() {
    let config = DeduplicationConfig { enabled: true, window_secs: 1, cleanup_interval_secs: 60 };
    let mut d = AlertDeduplicator::new(config);
    d.should_send_at(key(Severity::High, AnomalyType::LatencySpike), "a".to_string(), 0);
    d.should_send_at(key(Severity::Low, AnomalyType::LatencySpike), "b".to_string(), 600);
    d.cleanup_expired_at(1_500);
    assert_eq!(d.entry_count(), 1);
    d.cleanup_expired_at(1_601);
    assert_eq!(d.entry_count(), 0);
}

#[test]
fn cleanup_with_the_clock_drops_old_entries() {
    let config = DeduplicationConfig { enabled: true, window_secs: 300, cleanup_interval_secs: 60 };
    let mut d = AlertDeduplicator::new(config);
    // Observed at the epoch: long expired by the current time.
    d.should_send_at(key(Severity::High, AnomalyType::LatencySpike), "old".to_string(), 0);
    // Observed now: still inside its window.
    d.should_send(key(Severity::Low, AnomalyType::LatencySpike), "new".to_string());
    assert_eq!(d.entry_count(), 2);
    d.cleanup_expired();
    assert_eq!(d.entry_count(), 1);
    assert!(!d.should_send(key(Severity::Low, AnomalyType::LatencySpike), "again".to_string()));
    assert!(d.should_send(key(Severity::High, AnomalyType::LatencySpike), "fresh".to_string()));
}

#[test]
fn one_alert_per_window_for_the_scenario_signature() {
    let config = DeduplicationConfig { enabled: true, window_secs: 300, cleanup_interval_secs: 60 };
    let mut d = AlertDeduplicator::new(config);
    let k = || DeduplicationKey::new(ServiceId::new("svc-A"), ModelId::new("gpt-4"), AnomalyType::LatencySpike, Severity::High);
    assert!(d.should_send_at(k(), "1".to_string(), 1_000));
    assert!(!d.should_send_at(k(), "2".to_string(), 120_000));
    assert!(!d.should_send_at(k(), "3".to_string(), 300_000));
    assert!(!d.should_send_at(k(), "4".to_string(), 301_000));
    let stats = d.get_stats();
    assert_eq!(stats.total_signatures, 1);
    assert_eq!(stats.total_deduplicated, 3);
}

#[test]
fn clear_forgets_everything() {
    let mut d = AlertDeduplicator::new(DeduplicationConfig::default());
    d.should_send(key(Severity::High, AnomalyType::LatencySpike), "a".to_string());
    d.clear();
    assert_eq!(d.entry_count(), 0);
    assert!(d.should_send(key(Severity::High, AnomalyType::LatencySpike), "b".to_string()));
}

#[test]
fn custom_types_compare_by_text() {
    let mut d = AlertDeduplicator::new(DeduplicationConfig::default());
    let c = |s: &str| key(Severity::High, AnomalyType::Custom(s.to_string()));
    assert!(d.should_send_at(c("x"), "1".to_string(), 0));
    assert!(!d.should_send_at(c("x"), "2".to_string(), 10));
    assert!(d.should_send_at(c("y"), "3".to_string(), 20));
    assert_eq!(d.entry_count(), 2);
}
