use llm_sentinel::baseline::BaselineKey;
use llm_sentinel::detection::{plan_detectors, severity_for_sigmas, DetectorKind};
use llm_sentinel::error::Error;
use llm_sentinel::types::{AnomalyType, DetectionMethod, ModelId, ServiceId, Severity};

#[test]
fn test_severity_ordering() {
    assert!(Severity::Critical > Severity::High);
    assert!(Severity::High > Severity::Medium);
    assert!(Severity::Medium > Severity::Low);
}

#[test]
fn test_anomaly_type_display() {
    assert_eq!(AnomalyType::LatencySpike.to_string(), "latency_spike");
    assert_eq!(AnomalyType::Custom("test".to_string()).to_string(), "test");
}

#[test]
fn test_service_id_creation() {
    let id = ServiceId::new("test-service");
    assert_eq!(id.as_str(), "test-service");
    assert_eq!(id.to_string(), "test-service");
}

#[test]
fn test_model_id_from_string() {
    let id: ModelId = "gpt-4".into();
    assert_eq!(id.as_str(), "gpt-4");
}

#[test]
fn test_baseline_key_creation() {
    let key = BaselineKey::latency(ServiceId::new("test"), ModelId::new("gpt-4"));
    assert_eq!(key.service.as_str(), "test");
    assert_eq!(key.model.as_str(), "gpt-4");
    assert_eq!(key.metric, "latency_ms");
}

#[test]
fn baseline_key_metric_names() {
    let s = ServiceId::new("svc");
    let m = ModelId::new("m");
    assert_eq!(BaselineKey::tokens(s.clone(), m.clone()).metric, "total_tokens");
    assert_eq!(BaselineKey::cost(s.clone(), m.clone()).metric, "cost_usd");
    assert_eq!(BaselineKey::error_rate(s, m).metric, "error_rate");
}

#[test]
fn severity_renderings_are_lowercase() {
    assert_eq!(Severity::Low.to_string(), "low");
    assert_eq!(Severity::Medium.to_string(), "medium");
    assert_eq!(Severity::High.to_string(), "high");
    assert_eq!(Severity::Critical.to_string(), "critical");
    assert_eq!(Severity::default(), Severity::Medium);
    assert!(Severity::High.at_least(&Severity::Medium));
    assert!(!Severity::Low.at_least(&Severity::Medium));
}

#[test]
fn detection_method_renderings_are_snake_case() {
    assert_eq!(DetectionMethod::ZScore.to_string(), "z_score");
    assert_eq!(DetectionMethod::OneClassSvm.to_string(), "one_class_svm");
    assert_eq!(DetectionMethod::Custom("mine".to_string()).to_string(), "mine");
}

#[test]
fn sigma_severity_ladder() {
    assert_eq!(severity_for_sigmas(0), Severity::Low);
    assert_eq!(severity_for_sigmas(2), Severity::Low);
    assert_eq!(severity_for_sigmas(3), Severity::Medium);
    assert_eq!(severity_for_sigmas(4), Severity::High);
    assert_eq!(severity_for_sigmas(5), Severity::High);
    assert_eq!(severity_for_sigmas(6), Severity::Critical);
    assert_eq!(severity_for_sigmas(299), Severity::Critical);
}

#[test]
fn sigma_severity_never_decreases() {
    let mut prev = severity_for_sigmas(0);
    for k in 1..20u64 {
        let s = severity_for_sigmas(k);
        assert!(s >= prev);
        prev = s;
    }
}

#[test]
fn engine_without_detectors_is_refused() {
    assert!(matches!(plan_detectors(false, false, false, false, 1000), Err(Error::Config(_))));
    assert!(matches!(plan_detectors(true, true, true, true, 0), Err(Error::Config(_))));
}

#[test]
fn engine_runs_enabled_detectors_in_order() {
    assert_eq!(
        plan_detectors(true, true, true, true, 10).unwrap(),
        vec![DetectorKind::ZScore, DetectorKind::Iqr, DetectorKind::Mad, DetectorKind::Cusum]
    );
    assert_eq!(plan_detectors(false, true, false, true, 10).unwrap(), vec![DetectorKind::Iqr, DetectorKind::Cusum]);
}

#[test]
fn ids_convert_from_strings() {
    let m: ModelId = "gpt-4".into();
    assert_eq!(m.as_str(), "gpt-4");
    let m2 = ModelId::from("gpt-4".to_string());
    assert_eq!(m, m2);
    let s: ServiceId = "svc".into();
    assert_eq!(s.as_str(), "svc");
    assert_eq!(ServiceId::from("svc".to_string()).as_str(), "svc");
}
