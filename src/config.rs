//! Service configuration sections and the rules each must satisfy.
use vstd::prelude::*;
use vstd::string::StrSliceExecFns;

verus! {

/// HTTP server settings.
#[derive(Debug, Clone, PartialEq, Eq)]
pub struct ServerConfig {
    pub host: String,
    pub port: u16,
    pub worker_threads: usize,
    pub request_timeout_secs: u64,
    pub shutdown_timeout_secs: u64,
}

impl ServerConfig {
    /// A host is named, the port is not zero and both timeouts are positive.
    pub open spec fn spec_is_valid(&self) -> bool {
        self.host@.len() >= 1 && self.port >= 1 && self.request_timeout_secs >= 1
            && self.shutdown_timeout_secs >= 1
    }

    pub fn is_valid(&self) -> (r: bool)
        ensures
            r == self.spec_is_valid(),
    {
        self.host.as_str().unicode_len() >= 1 && self.port >= 1 && self.request_timeout_secs >= 1
            && self.shutdown_timeout_secs >= 1
    }
}

/// Broker consumer settings.
#[derive(Debug, Clone, PartialEq, Eq)]
pub struct KafkaConfig {
    pub brokers: Vec<String>,
    pub topic: String,
    pub consumer_group: String,
    pub auto_offset_reset: String,
    pub enable_auto_commit: bool,
    pub session_timeout_ms: u32,
}

impl KafkaConfig {
    /// At least one broker, a topic and a group are named, and the session
    /// timeout is at least one second.
    pub open spec fn spec_is_valid(&self) -> bool {
        self.brokers@.len() >= 1 && self.topic@.len() >= 1 && self.consumer_group@.len() >= 1
            && self.session_timeout_ms >= 1000
    }

    pub fn is_valid(&self) -> (r: bool)
        ensures
            r == self.spec_is_valid(),
    {
        self.brokers.len() >= 1 && self.topic.as_str().unicode_len() >= 1
            && self.consumer_group.as_str().unicode_len() >= 1 && self.session_timeout_ms >= 1000
    }
}

/// RPC endpoint settings.
#[derive(Debug, Clone, PartialEq, Eq)]
pub struct GrpcConfig {
    pub address: String,
    pub enable_tls: bool,
    pub cert_path: Option<String>,
    pub key_path: Option<String>,
}

impl GrpcConfig {
    /// An address is named.
    pub open spec fn spec_is_valid(&self) -> bool {
        self.address@.len() >= 1
    }

    pub fn is_valid(&self) -> (r: bool)
        ensures
            r == self.spec_is_valid(),
    {
        self.address.as_str().unicode_len() >= 1
    }
}

/// Ingestion settings.
#[derive(Debug, Clone, PartialEq, Eq)]
pub struct IngestionConfig {
    pub kafka: Option<KafkaConfig>,
    pub grpc: Option<GrpcConfig>,
    pub buffer_size: usize,
    pub batch_size: usize,
    pub batch_timeout_ms: u64,
}

impl IngestionConfig {
    /// The buffer holds at least 100 events, batches are not empty, the batch
    /// timeout is positive, and each configured source is valid.
    pub open spec fn spec_is_valid(&self) -> bool {
        &&& self.buffer_size >= 100
        &&& self.batch_size >= 1
        &&& self.batch_timeout_ms >= 1
        &&& self.kafka.is_some() ==> self.kafka.unwrap().spec_is_valid()
        &&& self.grpc.is_some() ==> self.grpc.unwrap().spec_is_valid()
    }

    pub fn is_valid(&self) -> (r: bool)
        ensures
            r == self.spec_is_valid(),
    {
        let kafka_ok = match &self.kafka {
            Some(k) => k.is_valid(),
            None => true,
        };
        let grpc_ok = match &self.grpc {
            Some(g) => g.is_valid(),
            None => true,
        };
        self.buffer_size >= 100 && self.batch_size >= 1 && self.batch_timeout_ms >= 1 && kafka_ok
            && grpc_ok
    }
}

/// Time-series database settings. The URL's syntax is checked where it is used.
#[derive(Debug, Clone, PartialEq, Eq)]
pub struct InfluxDbConfig {
    pub url: String,
    pub org: String,
    pub bucket: String,
    pub token: String,
    pub timeout_secs: u64,
}

impl InfluxDbConfig {
    /// Organisation, bucket and token are named and the timeout is positive.
    pub open spec fn spec_is_valid(&self) -> bool {
        self.org@.len() >= 1 && self.bucket@.len() >= 1 && self.token@.len() >= 1
            && self.timeout_secs >= 1
    }

    pub fn is_valid(&self) -> (r: bool)
        ensures
            r == self.spec_is_valid(),
    {
        self.org.as_str().unicode_len() >= 1 && self.bucket.as_str().unicode_len() >= 1
            && self.token.as_str().unicode_len() >= 1 && self.timeout_secs >= 1
    }
}

/// Key-value cache server settings.
#[derive(Debug, Clone, PartialEq, Eq)]
pub struct RedisConfig {
    pub url: String,
    pub cluster: bool,
    pub pool_size: usize,
    pub timeout_secs: u64,
}

impl RedisConfig {
    /// A URL is named, the pool is not empty and the timeout is positive.
    pub open spec fn spec_is_valid(&self) -> bool {
        self.url@.len() >= 1 && self.pool_size >= 1 && self.timeout_secs >= 1
    }

    pub fn is_valid(&self) -> (r: bool)
        ensures
            r == self.spec_is_valid(),
    {
        self.url.as_str().unicode_len() >= 1 && self.pool_size >= 1 && self.timeout_secs >= 1
    }
}

/// In-process cache settings.
#[derive(Debug, Clone, PartialEq, Eq)]
pub struct CacheConfig {
    pub cache_type: String,
    pub max_capacity: usize,
    pub ttl_secs: u64,
}

impl CacheConfig {
    /// A cache type is named, the capacity is at least 100 and the lifetime positive.
    pub open spec fn spec_is_valid(&self) -> bool {
        self.cache_type@.len() >= 1 && self.max_capacity >= 100 && self.ttl_secs >= 1
    }

    pub fn is_valid(&self) -> (r: bool)
        ensures
            r == self.spec_is_valid(),
    {
        self.cache_type.as_str().unicode_len() >= 1 && self.max_capacity >= 100 && self.ttl_secs
            >= 1
    }
}

/// Storage settings.
#[derive(Debug, Clone, PartialEq, Eq)]
pub struct StorageConfig {
    pub influxdb: Option<InfluxDbConfig>,
    pub redis: Option<RedisConfig>,
    pub cache: CacheConfig,
}

impl StorageConfig {
    /// Each configured backend is valid, and so is the cache.
    pub open spec fn spec_is_valid(&self) -> bool {
        &&& self.influxdb.is_some() ==> self.influxdb.unwrap().spec_is_valid()
        &&& self.redis.is_some() ==> self.redis.unwrap().spec_is_valid()
        &&& self.cache.spec_is_valid()
    }

    pub fn is_valid(&self) -> (r: bool)
        ensures
            r == self.spec_is_valid(),
    {
        let influx_ok = match &self.influxdb {
            Some(c) => c.is_valid(),
            None => true,
        };
        let redis_ok = match &self.redis {
            Some(c) => c.is_valid(),
            None => true,
        };
        influx_ok && redis_ok && self.cache.is_valid()
    }
}

/// Metrics, tracing and logging settings.
#[derive(Debug, Clone, PartialEq, Eq)]
pub struct ObservabilityConfig {
    pub enable_metrics: bool,
    pub metrics_port: u16,
    pub enable_tracing: bool,
    pub tracing_endpoint: Option<String>,
    pub log_level: String,
    pub log_format: String,
}

impl ObservabilityConfig {
    /// The metrics port is not zero.
    pub open spec fn spec_is_valid(&self) -> bool {
        self.metrics_port >= 1
    }

    pub fn is_valid(&self) -> (r: bool)
        ensures
            r == self.spec_is_valid(),
    {
        self.metrics_port >= 1
    }
}

} // verus!
