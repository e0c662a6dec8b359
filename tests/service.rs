use llm_sentinel::alerting::{
    alert_tags, alert_title,
    build_routing_key, generate_signature, is_retryable_status, publish_next_action,
    validate_webhook_url, webhook_next_action, AttemptOutcome, RetryAction, capped_delay,
};
use llm_sentinel::api::{page_of, parse_anomaly_type, parse_severity, ErrorResponse, ResponseMetadata, SuccessResponse};
use llm_sentinel::error::Error;
use llm_sentinel::health::{health_report, readiness_report, ComponentHealth, HealthState, ServiceStatus};
use llm_sentinel::ingestion::{OtlpParser, PipelineConfig};
use llm_sentinel::query::{resolve_time_range, telemetry_query_from_params, TelemetryQuery, TelemetryQueryParams, TimeRange};
use llm_sentinel::storage::{InfluxDbConfig, RedisCacheConfig};
use llm_sentinel::types::{AnomalyType, ModelId, ServiceId, Severity};

#[test]
fn test_component_health_creation() {
    let healthy = ComponentHealth::healthy("test");
    assert_eq!(healthy.status, ServiceStatus::Healthy);
    assert!(healthy.error.is_none());

    let unhealthy = ComponentHealth::unhealthy("test", "error message");
    assert_eq!(unhealthy.status, ServiceStatus::Unhealthy);
    assert_eq!(unhealthy.error, Some("error message".to_string()));
}

#[test]
fn health_degrades_when_storage_fails() {
    let state = HealthState::new("0.1.0".to_string());
    let ok = health_report(&state, &Ok(()));
    assert_eq!(ok.status, ServiceStatus::Healthy);
    assert_eq!(ok.version, "0.1.0");
    let bad = health_report(&state, &Err("down".to_string()));
    assert_eq!(bad.status, ServiceStatus::Degraded);
    assert_eq!(bad.components[0].status, ServiceStatus::Unhealthy);
    assert_eq!(bad.components[0].error, Some("down".to_string()));
}

#[test]
fn readiness_fails_when_storage_fails() {
    let state = HealthState::new("0.1.0".to_string());
    assert!(readiness_report(&state, &Ok(())).is_ok());
    let err = readiness_report(&state, &Err("down".to_string())).unwrap_err();
    assert_eq!(err.code, "unhealthy");
    assert_eq!(err.message, "Service is unhealthy");
}

#[test]
fn test_parse_severity() {
    assert_eq!(parse_severity("low"), Ok(Severity::Low));
    assert_eq!(parse_severity("HIGH"), Ok(Severity::High));
    assert_eq!(parse_severity("Medium"), Ok(Severity::Medium));
    assert!(parse_severity("invalid").is_err());
}

#[test]
fn parse_severity_error_names_the_input() {
    assert_eq!(parse_severity("bogus"), Err("Invalid severity: bogus".to_string()));
    assert_eq!(parse_severity("CRITICAL"), Ok(Severity::Critical));
}

#[test]
fn test_parse_anomaly_type() {
    assert_eq!(parse_anomaly_type("latency-spike"), Ok(AnomalyType::LatencySpike));
    assert_eq!(parse_anomaly_type("COST_ANOMALY"), Ok(AnomalyType::CostAnomaly));
    assert!(parse_anomaly_type("invalid").is_err());
}

#[test]
fn parse_anomaly_type_reads_dashes_and_case() {
    assert_eq!(parse_anomaly_type("Token-Usage-Spike"), Ok(AnomalyType::TokenUsageSpike));
    assert_eq!(parse_anomaly_type("security_threat"), Ok(AnomalyType::SecurityThreat));
    assert_eq!(parse_anomaly_type("x-y"), Err("Invalid anomaly type: x-y".to_string()));
}

#[test]
fn response_envelopes() {
    let r = SuccessResponse::new(vec![1, 2, 3]).with_metadata(ResponseMetadata {
        total_count: Some(3),
        page: page_of(Some(250), Some(100)),
        page_size: Some(100),
    });
    assert_eq!(r.data, vec![1, 2, 3]);
    assert_eq!(r.metadata.unwrap().page, Some(2));
    assert_eq!(page_of(Some(250), None), Some(2));
    assert_eq!(page_of(None, Some(10)), None);
    let e = ErrorResponse::new("bad", "worse").with_details("{}".to_string());
    assert_eq!(e.details, Some("{}".to_string()));
}

#[test]
fn test_error_creation() {
    let err = Error::config("test error");
    assert!(matches!(err, Error::Config(_)));
}

#[test]
fn test_error_context() {
    let err = Error::storage("database error").context("Failed to save event");
    assert!(matches!(err, Error::WithContext { .. }));
}

#[test]
fn test_error_retryable() {
    assert!(Error::connection("test").is_retryable());
    assert!(Error::timeout("test").is_retryable());
    assert!(!Error::validation("test").is_retryable());
}

#[test]
fn test_error_transient() {
    assert!(Error::connection("test").is_transient());
    assert!(Error::rate_limit("test").is_transient());
    assert!(!Error::validation("test").is_transient());
}

#[test]
fn test_retryable_status_codes() {
    assert!(is_retryable_status(500));
    assert!(is_retryable_status(503));
    assert!(is_retryable_status(429));
    assert!(!is_retryable_status(404));
    assert!(!is_retryable_status(400));
}

#[test]
fn webhook_retry_decisions() {
    assert_eq!(webhook_next_action(AttemptOutcome::Status(200), 1, 3), RetryAction::Delivered);
    assert_eq!(webhook_next_action(AttemptOutcome::Status(500), 1, 3), RetryAction::Retry);
    assert_eq!(webhook_next_action(AttemptOutcome::Status(500), 3, 3), RetryAction::GiveUp);
    assert_eq!(webhook_next_action(AttemptOutcome::Status(404), 1, 3), RetryAction::GiveUp);
    assert_eq!(webhook_next_action(AttemptOutcome::TransportError, 2, 3), RetryAction::Retry);
    assert_eq!(webhook_next_action(AttemptOutcome::TransportError, 3, 3), RetryAction::GiveUp);
    assert_eq!(publish_next_action(true, 5, 3), RetryAction::Delivered);
    assert_eq!(publish_next_action(false, 1, 3), RetryAction::Retry);
    assert_eq!(publish_next_action(false, 3, 3), RetryAction::GiveUp);
    assert_eq!(capped_delay(64_000, 30_000), 30_000);
    assert_eq!(capped_delay(2_000, 30_000), 2_000);
}

#[test]
fn test_empty_url_error() {
    assert!(validate_webhook_url("").is_err());
    assert!(validate_webhook_url("https://example.com/webhook").is_ok());
}

#[test]
fn test_routing_key_generation() {
    assert_eq!(build_routing_key("alert", Severity::Low), "alert.low");
    assert_eq!(build_routing_key("alert", Severity::Critical), "alert.critical");
}

#[test]
fn signature_is_hmac_sha256_hex() {
    assert_eq!(generate_signature(&None, "payload"), None);
    let sig = generate_signature(&Some("key".to_string()), "The quick brown fox jumps over the lazy dog").unwrap();
    assert_eq!(sig, "f7bc83f430538424b13298e6aa6fb143ef4d59a14946175997479dbc2d1a3cd8");
}

#[test]
fn test_otlp_parser_creation() {
    let parser = OtlpParser::new(5000);
    assert_eq!(parser.max_text_length, 5000);

    let default_parser = OtlpParser::default();
    assert_eq!(default_parser.max_text_length, 10000);
}

#[test]
fn test_text_truncation() {
    let parser = OtlpParser::new(10);
    let long_text = "a".repeat(100);
    let truncated = parser.truncate_text(long_text);
    assert!(truncated.len() < 100);
    assert!(truncated.contains("truncated"));
}

#[test]
fn truncation_keeps_short_text_and_cuts_at_characters() {
    let parser = OtlpParser::new(5);
    assert_eq!(parser.truncate_text("abc".to_string()), "abc");
    assert_eq!(parser.truncate_text("abcdefgh".to_string()), "abcde...[truncated]");
    assert_eq!(parser.truncate_text("ééé".to_string()), "ééé...[truncated]");
}

#[test]
fn test_pipeline_stats() {
    let stats = PipelineConfig::default().stats();
    assert_eq!(stats.workers, 4);
    assert_eq!(stats.buffer_size, 10000);
}

#[test]
fn test_redis_config_creation() {
    let config = RedisCacheConfig::default();
    assert_eq!(config.key_prefix, "sentinel:");
    assert_eq!(config.ttl_secs, 300);
}

#[test]
fn test_redis_cache_key_building() {
    let config = RedisCacheConfig::default();
    assert_eq!(config.build_key("test"), "sentinel:test");
}

#[test]
fn influxdb_test_config_creation() {
    let config = InfluxDbConfig {
        url: "http://localhost:8086".to_string(),
        org: "test".to_string(),
        telemetry_bucket: "test-telemetry".to_string(),
        anomaly_bucket: "test-anomalies".to_string(),
        token: "test-token".to_string(),
        batch_size: 100,
        timeout_secs: 10,
    };
    assert_eq!(config.org, "test");
    assert_eq!(config.batch_size, 100);
}

#[test]
fn test_time_range_creation() {
    let range = TimeRange::last_hours(24);
    assert!(range.duration_secs() > 86300);
    assert!(range.duration_secs() < 86500);
}

#[test]
fn test_time_range_last_days() {
    let range = TimeRange::last_days(7);
    assert!(range.duration_secs() > 604700);
}

#[test]
fn time_range_minutes_and_rounding() {
    assert_eq!(TimeRange::last_minutes(3).duration_secs(), 180);
    assert_eq!(TimeRange::new(0, 1_999).duration_secs(), 1);
    assert_eq!(TimeRange::new(1_999, 0).duration_secs(), -1);
}

#[test]
fn test_telemetry_query_builder() {
    let query = TelemetryQuery::new(TimeRange::last_hours(1))
        .with_service(ServiceId::new("test"))
        .with_model(ModelId::new("gpt-4"))
        .with_limit(100)
        .descending();

    assert_eq!(query.limit, Some(100));
    assert!(!query.ascending);
    assert!(query.service.is_some());
}

#[test]
fn query_parameters_become_a_query() {
    let params = TelemetryQueryParams {
        service: Some("svc".to_string()),
        model: None,
        start: Some("2024-01-01T00:00:00Z".to_string()),
        end: Some("2024-01-01T01:00:00Z".to_string()),
        hours: None,
        limit: None,
        offset: Some(20),
        ascending: Some(true),
    };
    let q = telemetry_query_from_params(&params, 0).unwrap();
    assert_eq!(q.time_range, TimeRange::new(1_704_067_200_000, 1_704_070_800_000));
    assert_eq!(q.service.unwrap().as_str(), "svc");
    assert_eq!(q.limit, Some(1000));
    assert_eq!(q.offset, Some(20));
    assert!(q.ascending);
}

#[test]
fn query_time_range_defaults_and_errors() {
    let now = 10_000_000_000;
    assert_eq!(resolve_time_range(&None, &None, None, now).unwrap(), TimeRange::new(now - 24 * 3_600_000, now));
    assert_eq!(resolve_time_range(&None, &None, Some(2), now).unwrap(), TimeRange::new(now - 2 * 3_600_000, now));
    let err = resolve_time_range(&Some("yesterday".to_string()), &Some("2024-01-01T00:00:00Z".to_string()), None, now).unwrap_err();
    assert_eq!(err.code, "invalid_time");
}

#[test]
fn influxdb_defaults() {
    let c = InfluxDbConfig::default();
    assert_eq!(c.url, "http://localhost:8086");
    assert_eq!(c.org, "sentinel");
    assert_eq!(c.telemetry_bucket, "telemetry");
    assert_eq!(c.anomaly_bucket, "anomalies");
    assert_eq!(c.token, "");
    assert_eq!(c.batch_size, 100);
    assert_eq!(c.timeout_secs, 10);
}

#[test]
fn alert_title_and_tags() {
    let s = ServiceId::new("svc-A");
    let m = ModelId::new("gpt-4");
    assert_eq!(alert_title(&AnomalyType::LatencySpike, &s, &m), "latency_spike detected in svc-A (gpt-4)");
    let tags = alert_tags(Severity::High, &AnomalyType::CostAnomaly, &s, &m, &llm_sentinel::types::DetectionMethod::Cusum);
    assert_eq!(
        tags,
        vec!["severity:high", "type:cost_anomaly", "service:svc-A", "model:gpt-4", "method:cusum"]
    );
}
