//! Decisions of alert delivery: routing, signing and retrying.
use vstd::prelude::*;
use vstd::string::StringExecFns;
use crate::types::{anomaly_type_label, AnomalyType, DetectionMethod, ModelId, ServiceId, Severity};
use hmac::Mac;

verus! {

/// Delivery status of an alert.
#[derive(Debug, Clone, Copy, PartialEq, Eq, Structural)]
pub enum AlertStatus {
    Pending,
    Delivered,
    Failed,
    Deduplicated,
}

/// HTTP method of a webhook request.
#[derive(Debug, Clone, Copy, PartialEq, Eq, Structural)]
pub enum HttpMethod {
    Post,
    Put,
}

/// Routing key of an alert on the broker: the prefix, a dot, and the severity.
pub fn build_routing_key(prefix: &str, severity: Severity) -> (r: String)
    ensures
        r@ == prefix@ + "."@ + severity.label(),
{
    let label = severity.to_string();
    String::from_str(prefix).concat(".").concat(label.as_str())
}

/// Title of an alert: `<type> detected in <service> (<model>)`.
pub fn alert_title(anomaly_type: &AnomalyType, service: &ServiceId, model: &ModelId) -> (r: String)
    ensures
        r@ == anomaly_type_label(anomaly_type@) + " detected in "@ + service@ + " ("@ + model@
            + ")"@,
{
    anomaly_type.to_string().concat(" detected in ").concat(service.as_str()).concat(" (").concat(
        model.as_str(),
    ).concat(")")
}

/// Tags of an alert, in order: severity, type, service, model and method, each as
/// `name:value`.
pub fn alert_tags(
    severity: Severity,
    anomaly_type: &AnomalyType,
    service: &ServiceId,
    model: &ModelId,
    method: &DetectionMethod,
) -> (r: Vec<String>)
    ensures
        r@.len() == 5,
        r@[0]@ == "severity:"@ + severity.label(),
        r@[1]@ == "type:"@ + anomaly_type_label(anomaly_type@),
        r@[2]@ == "service:"@ + service@,
        r@[3]@ == "model:"@ + model@,
        r@[4]@ == "method:"@ + method.label(),
{
    let mut tags: Vec<String> = Vec::new();
    tags.push(String::from_str("severity:").concat(severity.to_string().as_str()));
    tags.push(String::from_str("type:").concat(anomaly_type.to_string().as_str()));
    tags.push(String::from_str("service:").concat(service.as_str()));
    tags.push(String::from_str("model:").concat(model.as_str()));
    tags.push(String::from_str("method:").concat(method.to_string().as_str()));
    tags
}

/// HMAC-SHA256 of `payload` under key `secret`, as lowercase hex.
pub uninterp spec fn hmac_sha256_hex(secret: Seq<char>, payload: Seq<char>) -> Seq<char>;

/// Relies on hmac's `Hmac::<Sha256>::new_from_slice` (which accepts a key of any
/// length), `Mac::update` and `Mac::finalize`, and on `hex::encode`, which writes
/// two lowercase digits for each of the 32 bytes of the tag.
#[verifier::external_body]
fn hmac_hex(secret: &str, payload: &str) -> (r: String)
    ensures
        r@ == hmac_sha256_hex(secret@, payload@),
        r@.len() == 64,
{
    let mut mac = hmac::Hmac::<sha2::Sha256>::new_from_slice(secret.as_bytes()).unwrap();
    mac.update(payload.as_bytes());
    hex::encode(mac.finalize().into_bytes())
}

/// Signature of a webhook payload: present exactly when a secret is configured.
pub fn generate_signature(secret: &Option<String>, payload: &str) -> (r: Option<String>)
    ensures
        secret.is_none() ==> r.is_none(),
        secret.is_some() ==> r.is_some() && r.unwrap()@ == hmac_sha256_hex(
            secret.unwrap()@,
            payload@,
        ),
{
    match secret {
        Some(s) => Some(hmac_hex(s.as_str(), payload)),
        None => None,
    }
}

/// Status codes after which a webhook request is worth repeating.
pub open spec fn retryable_status(status: u16) -> bool {
    status == 408 || status == 429 || status == 500 || status == 502 || status == 503 || status
        == 504
}

pub fn is_retryable_status(status: u16) -> (r: bool)
    ensures
        r == retryable_status(status),
{
    status == 408 || status == 429 || status == 500 || status == 502 || status == 503 || status
        == 504
}

/// Outcome of one delivery attempt.
#[derive(Debug, Clone, Copy, PartialEq, Eq, Structural)]
pub enum AttemptOutcome {
    /// The request got an answer with this HTTP status.
    Status(u16),
    /// The request failed before any answer.
    TransportError,
}

/// What to do after an attempt.
#[derive(Debug, Clone, Copy, PartialEq, Eq, Structural)]
pub enum RetryAction {
    /// Delivered; stop.
    Delivered,
    /// Wait for the backoff delay, then try again.
    Retry,
    /// Stop and report the failure.
    GiveUp,
}

/// Decision of the webhook after attempt number `attempt` (counted from 1): a 2xx
/// status is delivered; a retryable status or a transport error is tried again
/// while fewer than `max_retries` attempts were made; anything else gives up.
pub fn webhook_next_action(outcome: AttemptOutcome, attempt: u32, max_retries: u32) -> (r:
    RetryAction)
    ensures
        r == (match outcome {
            AttemptOutcome::Status(s) => if 200 <= s <= 299 {
                RetryAction::Delivered
            } else if retryable_status(s) && attempt < max_retries {
                RetryAction::Retry
            } else {
                RetryAction::GiveUp
            },
            AttemptOutcome::TransportError => if attempt >= max_retries {
                RetryAction::GiveUp
            } else {
                RetryAction::Retry
            },
        }),
{
    match outcome {
        AttemptOutcome::Status(s) => {
            if 200 <= s && s <= 299 {
                RetryAction::Delivered
            } else if is_retryable_status(s) && attempt < max_retries {
                RetryAction::Retry
            } else {
                RetryAction::GiveUp
            }
        },
        AttemptOutcome::TransportError => {
            if attempt >= max_retries {
                RetryAction::GiveUp
            } else {
                RetryAction::Retry
            }
        },
    }
}

/// Decision of the broker publisher after attempt number `attempt` (counted from 1):
/// a publish that went through is delivered; a failed one is tried again while
/// fewer than `max_attempts` attempts were made.
pub fn publish_next_action(published: bool, attempt: u32, max_attempts: u32) -> (r: RetryAction)
    ensures
        r == (if published {
            RetryAction::Delivered
        } else if attempt >= max_attempts {
            RetryAction::GiveUp
        } else {
            RetryAction::Retry
        }),
{
    if published {
        RetryAction::Delivered
    } else if attempt >= max_attempts {
        RetryAction::GiveUp
    } else {
        RetryAction::Retry
    }
}

/// Next backoff delay: the delay grown by the multiplier (computed by the caller),
/// never above `max_delay_ms`.
pub fn capped_delay(grown_delay_ms: u64, max_delay_ms: u64) -> (r: u64)
    ensures
        r == if grown_delay_ms <= max_delay_ms {
            grown_delay_ms
        } else {
            max_delay_ms
        },
{
    if grown_delay_ms <= max_delay_ms {
        grown_delay_ms
    } else {
        max_delay_ms
    }
}

/// A webhook target must have a URL.
pub fn validate_webhook_url(url: &str) -> (r: Result<(), String>)
    ensures
        r.is_ok() == (url@.len() > 0),
        r.is_err() ==> r->Err_0@ == "Webhook URL cannot be empty"@,
{
    if url.is_empty() {
        Err(String::from_str("Webhook URL cannot be empty"))
    } else {
        Ok(())
    }
}

} // verus!
