use llm_sentinel::config::{
    CacheConfig, GrpcConfig, IngestionConfig, KafkaConfig, ObservabilityConfig, ServerConfig, StorageConfig,
};

fn server(host: &str, port: u16) -> ServerConfig {
    ServerConfig {
        host: host.to_string(),
        port,
        worker_threads: 4,
        request_timeout_secs: 30,
        shutdown_timeout_secs: 10,
    }
}

#[test]
fn server_config_rules() {
    assert!(server("0.0.0.0", 8080).is_valid());
    assert!(!server("", 8080).is_valid());
    assert!(!server("0.0.0.0", 0).is_valid());
}

#[test]
fn ingestion_config_checks_its_sources() {
    let kafka = KafkaConfig {
        brokers: vec!["localhost:9092".to_string()],
        topic: "llm-telemetry".to_string(),
        consumer_group: "sentinel".to_string(),
        auto_offset_reset: "latest".to_string(),
        enable_auto_commit: true,
        session_timeout_ms: 30000,
    };
    let mut cfg = IngestionConfig {
        kafka: Some(kafka.clone()),
        grpc: Some(GrpcConfig { address: "0.0.0.0:4317".to_string(), enable_tls: false, cert_path: None, key_path: None }),
        buffer_size: 10000,
        batch_size: 100,
        batch_timeout_ms: 1000,
    };
    assert!(cfg.is_valid());
    cfg.buffer_size = 99;
    assert!(!cfg.is_valid());
    cfg.buffer_size = 100;
    cfg.kafka = Some(KafkaConfig { brokers: Vec::new(), ..kafka });
    assert!(!cfg.is_valid());
}

#[test]
fn storage_and_observability_rules() {
    let cache = CacheConfig { cache_type: "moka".to_string(), max_capacity: 100, ttl_secs: 300 };
    let storage = StorageConfig { influxdb: None, redis: None, cache: cache.clone() };
    assert!(storage.is_valid());
    let small = StorageConfig { influxdb: None, redis: None, cache: CacheConfig { max_capacity: 99, ..cache } };
    assert!(!small.is_valid());
    let obs = ObservabilityConfig {
        enable_metrics: true,
        metrics_port: 0,
        enable_tracing: false,
        tracing_endpoint: None,
        log_level: "info".to_string(),
        log_format: "json".to_string(),
    };
    assert!(!obs.is_valid());
}
