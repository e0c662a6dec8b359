//! Settings of the storage backends and the naming of cache keys.
use vstd::prelude::*;
use vstd::string::StringExecFns;

verus! {

/// In-process baseline cache settings.
#[derive(Debug, Clone, Copy, PartialEq, Eq)]
pub struct CacheConfig {
    pub max_capacity: u64,
    pub ttl_secs: u64,
    /// Idle timeout, if any.
    pub tti_secs: Option<u64>,
    pub enable_metrics: bool,
}

impl Default for CacheConfig {
    fn default() -> (r: CacheConfig)
        ensures
            r.max_capacity == 10000,
            r.ttl_secs == 300,
            r.tti_secs.is_none(),
            r.enable_metrics,
    {
        CacheConfig { max_capacity: 10000, ttl_secs: 300, tti_secs: None, enable_metrics: true }
    }
}

/// Occupancy of the baseline cache.
#[derive(Debug, Clone, Copy, PartialEq, Eq)]
pub struct CacheStats {
    pub entry_count: u64,
    pub weighted_size: u64,
    pub max_capacity: u64,
    pub ttl_secs: u64,
}

/// Settings of the shared key-value cache.
#[derive(Debug, Clone, PartialEq, Eq)]
pub struct RedisCacheConfig {
    pub url: String,
    pub key_prefix: String,
    pub ttl_secs: u64,
}

impl Default for RedisCacheConfig {
    fn default() -> (r: RedisCacheConfig)
        ensures
            r.url@ == "redis://localhost:6379"@,
            r.key_prefix@ == "sentinel:"@,
            r.ttl_secs == 300,
    {
        RedisCacheConfig {
            url: String::from_str("redis://localhost:6379"),
            key_prefix: String::from_str("sentinel:"),
            ttl_secs: 300,
        }
    }
}

impl RedisCacheConfig {
    /// The stored name of `key`: the configured prefix followed by the key.
    pub fn build_key(&self, key: &str) -> (r: String)
        ensures
            r@ == self.key_prefix@ + key@,
    {
        self.key_prefix.clone().concat(key)
    }
}

/// Settings of the time-series database writer.
#[derive(Debug, Clone, PartialEq, Eq)]
pub struct InfluxDbConfig {
    pub url: String,
    pub org: String,
    pub telemetry_bucket: String,
    pub anomaly_bucket: String,
    pub token: String,
    pub batch_size: usize,
    pub timeout_secs: u64,
}

impl Default for InfluxDbConfig {
    fn default() -> (r: InfluxDbConfig)
        ensures
            r.url@ == "http://localhost:8086"@,
            r.org@ == "sentinel"@,
            r.telemetry_bucket@ == "telemetry"@,
            r.anomaly_bucket@ == "anomalies"@,
            r.token@.len() == 0,
            r.batch_size == 100,
            r.timeout_secs == 10,
    {
        InfluxDbConfig {
            url: String::from_str("http://localhost:8086"),
            org: String::from_str("sentinel"),
            telemetry_bucket: String::from_str("telemetry"),
            anomaly_bucket: String::from_str("anomalies"),
            token: String::new(),
            batch_size: 100,
            timeout_secs: 10,
        }
    }
}

} // verus!
