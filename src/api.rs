//! Response envelopes and query-parameter parsing of the query surface.
use vstd::prelude::*;
use vstd::string::StringExecFns;
use crate::text::{lower_of, lowercase, replace_char, replace_chars};
use crate::types::{AnomalyType, AnomalyTypeView, Severity};

verus! {

/// Paging information of a response.
#[derive(Debug, Clone, Copy, PartialEq, Eq)]
pub struct ResponseMetadata {
    pub total_count: Option<usize>,
    pub page: Option<usize>,
    pub page_size: Option<usize>,
}

/// Successful response carrying `data`.
#[derive(Debug, Clone)]
pub struct SuccessResponse<T> {
    pub data: T,
    pub metadata: Option<ResponseMetadata>,
}

impl<T> SuccessResponse<T> {
    pub fn new(data: T) -> (r: SuccessResponse<T>)
        ensures
            r.data == data,
            r.metadata.is_none(),
    {
        SuccessResponse { data, metadata: None }
    }

    pub fn with_metadata(self, metadata: ResponseMetadata) -> (r: SuccessResponse<T>)
        ensures
            r.data == self.data,
            r.metadata == Some(metadata),
    {
        SuccessResponse { data: self.data, metadata: Some(metadata) }
    }
}

/// Error response: a code, a message and optional details as JSON text.
#[derive(Debug, Clone, PartialEq, Eq)]
pub struct ErrorResponse {
    pub code: String,
    pub message: String,
    pub details: Option<String>,
}

impl ErrorResponse {
    pub fn new(code: &str, message: &str) -> (r: ErrorResponse)
        ensures
            r.code@ == code@,
            r.message@ == message@,
            r.details.is_none(),
    {
        ErrorResponse {
            code: String::from_str(code),
            message: String::from_str(message),
            details: None,
        }
    }

    pub fn with_details(self, details: String) -> (r: ErrorResponse)
        ensures
            r.code == self.code,
            r.message == self.message,
            r.details == Some(details),
    {
        ErrorResponse { code: self.code, message: self.message, details: Some(details) }
    }
}

/// Page index of a response: the offset divided by the page size (100 when none is given).
pub fn page_of(offset: Option<usize>, limit: Option<usize>) -> (r: Option<usize>)
    ensures
        offset.is_none() ==> r.is_none(),
        offset.is_some() ==> r == Some(
            (offset.unwrap() / (if limit.is_some() && limit.unwrap() > 0 {
                limit.unwrap()
            } else {
                100usize
            })) as usize,
        ),
{
    match offset {
        None => None,
        Some(o) => {
            let size: usize = match limit {
                Some(l) => if l > 0 {
                    l
                } else {
                    100
                },
                None => 100,
            };
            Some(o / size)
        },
    }
}

/// The severity named by a lowercase word.
pub open spec fn severity_named(t: Seq<char>) -> Option<Severity> {
    if t == "low"@ {
        Some(Severity::Low)
    } else if t == "medium"@ {
        Some(Severity::Medium)
    } else if t == "high"@ {
        Some(Severity::High)
    } else if t == "critical"@ {
        Some(Severity::Critical)
    } else {
        None
    }
}

/// The anomaly type named by a lowercase snake_case word of the closed set.
pub open spec fn anomaly_type_named(t: Seq<char>) -> Option<AnomalyTypeView> {
    if t == "latency_spike"@ {
        Some(AnomalyTypeView::LatencySpike)
    } else if t == "throughput_degradation"@ {
        Some(AnomalyTypeView::ThroughputDegradation)
    } else if t == "error_rate_increase"@ {
        Some(AnomalyTypeView::ErrorRateIncrease)
    } else if t == "token_usage_spike"@ {
        Some(AnomalyTypeView::TokenUsageSpike)
    } else if t == "cost_anomaly"@ {
        Some(AnomalyTypeView::CostAnomaly)
    } else if t == "input_drift"@ {
        Some(AnomalyTypeView::InputDrift)
    } else if t == "output_drift"@ {
        Some(AnomalyTypeView::OutputDrift)
    } else if t == "concept_drift"@ {
        Some(AnomalyTypeView::ConceptDrift)
    } else if t == "embedding_drift"@ {
        Some(AnomalyTypeView::EmbeddingDrift)
    } else if t == "hallucination"@ {
        Some(AnomalyTypeView::Hallucination)
    } else if t == "quality_degradation"@ {
        Some(AnomalyTypeView::QualityDegradation)
    } else if t == "security_threat"@ {
        Some(AnomalyTypeView::SecurityThreat)
    } else {
        None
    }
}

fn text_is(t: &String, word: &str) -> (r: bool)
    ensures
        r == (t@ == word@),
{
    *t == String::from_str(word)
}

/// The severity named by `t`, which is already lowercase.
pub fn severity_from_lowercase(t: &String) -> (r: Option<Severity>)
    ensures
        r == severity_named(t@),
{
    if text_is(t, "low") {
        Some(Severity::Low)
    } else if text_is(t, "medium") {
        Some(Severity::Medium)
    } else if text_is(t, "high") {
        Some(Severity::High)
    } else if text_is(t, "critical") {
        Some(Severity::Critical)
    } else {
        None
    }
}

/// The anomaly type named by `t`, which is already lowercase snake_case.
pub fn anomaly_type_from_lowercase(t: &String) -> (r: Option<AnomalyType>)
    ensures
        r.is_some() == anomaly_type_named(t@).is_some(),
        r.is_some() ==> r.unwrap()@ == anomaly_type_named(t@).unwrap(),
{
    if text_is(t, "latency_spike") {
        Some(AnomalyType::LatencySpike)
    } else if text_is(t, "throughput_degradation") {
        Some(AnomalyType::ThroughputDegradation)
    } else if text_is(t, "error_rate_increase") {
        Some(AnomalyType::ErrorRateIncrease)
    } else if text_is(t, "token_usage_spike") {
        Some(AnomalyType::TokenUsageSpike)
    } else if text_is(t, "cost_anomaly") {
        Some(AnomalyType::CostAnomaly)
    } else if text_is(t, "input_drift") {
        Some(AnomalyType::InputDrift)
    } else if text_is(t, "output_drift") {
        Some(AnomalyType::OutputDrift)
    } else if text_is(t, "concept_drift") {
        Some(AnomalyType::ConceptDrift)
    } else if text_is(t, "embedding_drift") {
        Some(AnomalyType::EmbeddingDrift)
    } else if text_is(t, "hallucination") {
        Some(AnomalyType::Hallucination)
    } else if text_is(t, "quality_degradation") {
        Some(AnomalyType::QualityDegradation)
    } else if text_is(t, "security_threat") {
        Some(AnomalyType::SecurityThreat)
    } else {
        None
    }
}

/// Parses a severity, ignoring case.
pub fn parse_severity(s: &str) -> (r: Result<Severity, String>)
    ensures
        severity_named(lower_of(s@)).is_some() ==> r == Ok::<Severity, String>(
            severity_named(lower_of(s@)).unwrap(),
        ),
        severity_named(lower_of(s@)).is_none() ==> r.is_err() && r->Err_0@
            == "Invalid severity: "@ + s@,
{
    let t = lowercase(s);
    match severity_from_lowercase(&t) {
        Some(sev) => Ok(sev),
        None => Err(String::from_str("Invalid severity: ").concat(s)),
    }
}

/// Parses an anomaly type, ignoring case and reading `-` as `_`.
pub fn parse_anomaly_type(s: &str) -> (r: Result<AnomalyType, String>)
    ensures
        ({
            let named = anomaly_type_named(replace_char(lower_of(s@), '-', '_'));
            &&& named.is_some() ==> r.is_ok() && r->Ok_0@ == named.unwrap()
            &&& named.is_none() ==> r.is_err() && r->Err_0@ == "Invalid anomaly type: "@ + s@
        }),
{
    let lower = lowercase(s);
    let t = replace_chars(lower.as_str(), '-', '_');
    match anomaly_type_from_lowercase(&t) {
        Some(a) => Ok(a),
        None => Err(String::from_str("Invalid anomaly type: ").concat(s)),
    }
}

} // verus!
