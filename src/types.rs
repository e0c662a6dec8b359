//! Identifiers and enumerations shared by detection and alerting.
use vstd::prelude::*;
use vstd::string::StringExecFns;

verus! {

/// Severity of an anomaly; ordered `Low < Medium < High < Critical`.
#[derive(Debug, Clone, Copy, PartialEq, Eq, Structural, PartialOrd, Ord, Hash)]
pub enum Severity {
    Low,
    Medium,
    High,
    Critical,
}

impl Severity {
    /// Position of the severity in the total order.
    pub open spec fn rank(self) -> nat {
        match self {
            Severity::Low => 0,
            Severity::Medium => 1,
            Severity::High => 2,
            Severity::Critical => 3,
        }
    }

    pub open spec fn label(self) -> Seq<char> {
        match self {
            Severity::Low => "low"@,
            Severity::Medium => "medium"@,
            Severity::High => "high"@,
            Severity::Critical => "critical"@,
        }
    }

    /// Numeric level, consistent with the order of severities.
    pub fn level(&self) -> (r: u8)
        ensures
            r as nat == self.rank(),
    {
        match self {
            Severity::Low => 0,
            Severity::Medium => 1,
            Severity::High => 2,
            Severity::Critical => 3,
        }
    }

    /// `true` when `self` is at least as severe as `other`.
    pub fn at_least(&self, other: &Severity) -> (r: bool)
        ensures
            r == (self.rank() >= other.rank()),
    {
        self.level() >= other.level()
    }

    /// The lowercase wire rendering.
    pub fn to_string(&self) -> (r: String)
        ensures
            r@ == self.label(),
    {
        match self {
            Severity::Low => String::from_str("low"),
            Severity::Medium => String::from_str("medium"),
            Severity::High => String::from_str("high"),
            Severity::Critical => String::from_str("critical"),
        }
    }
}

impl Default for Severity {
    fn default() -> (r: Severity)
        ensures
            r == Severity::Medium,
    {
        Severity::Medium
    }
}

/// Kind of anomaly; a closed set with a custom escape hatch.
#[derive(Debug, Clone, PartialEq, Eq, Hash)]
pub enum AnomalyType {
    LatencySpike,
    ThroughputDegradation,
    ErrorRateIncrease,
    TokenUsageSpike,
    CostAnomaly,
    InputDrift,
    OutputDrift,
    ConceptDrift,
    EmbeddingDrift,
    Hallucination,
    QualityDegradation,
    SecurityThreat,
    Custom(String),
}

/// Mathematical value of an [`AnomalyType`]: the variant, with the text of a custom one.
pub enum AnomalyTypeView {
    LatencySpike,
    ThroughputDegradation,
    ErrorRateIncrease,
    TokenUsageSpike,
    CostAnomaly,
    InputDrift,
    OutputDrift,
    ConceptDrift,
    EmbeddingDrift,
    Hallucination,
    QualityDegradation,
    SecurityThreat,
    Custom(Seq<char>),
}

impl View for AnomalyType {
    type V = AnomalyTypeView;

    open spec fn view(&self) -> AnomalyTypeView {
        match self {
            AnomalyType::LatencySpike => AnomalyTypeView::LatencySpike,
            AnomalyType::ThroughputDegradation => AnomalyTypeView::ThroughputDegradation,
            AnomalyType::ErrorRateIncrease => AnomalyTypeView::ErrorRateIncrease,
            AnomalyType::TokenUsageSpike => AnomalyTypeView::TokenUsageSpike,
            AnomalyType::CostAnomaly => AnomalyTypeView::CostAnomaly,
            AnomalyType::InputDrift => AnomalyTypeView::InputDrift,
            AnomalyType::OutputDrift => AnomalyTypeView::OutputDrift,
            AnomalyType::ConceptDrift => AnomalyTypeView::ConceptDrift,
            AnomalyType::EmbeddingDrift => AnomalyTypeView::EmbeddingDrift,
            AnomalyType::Hallucination => AnomalyTypeView::Hallucination,
            AnomalyType::QualityDegradation => AnomalyTypeView::QualityDegradation,
            AnomalyType::SecurityThreat => AnomalyTypeView::SecurityThreat,
            AnomalyType::Custom(s) => AnomalyTypeView::Custom(s@),
        }
    }
}

/// The snake_case rendering of an anomaly type; a custom type renders as its own text.
pub open spec fn anomaly_type_label(t: AnomalyTypeView) -> Seq<char> {
    match t {
        AnomalyTypeView::LatencySpike => "latency_spike"@,
        AnomalyTypeView::ThroughputDegradation => "throughput_degradation"@,
        AnomalyTypeView::ErrorRateIncrease => "error_rate_increase"@,
        AnomalyTypeView::TokenUsageSpike => "token_usage_spike"@,
        AnomalyTypeView::CostAnomaly => "cost_anomaly"@,
        AnomalyTypeView::InputDrift => "input_drift"@,
        AnomalyTypeView::OutputDrift => "output_drift"@,
        AnomalyTypeView::ConceptDrift => "concept_drift"@,
        AnomalyTypeView::EmbeddingDrift => "embedding_drift"@,
        AnomalyTypeView::Hallucination => "hallucination"@,
        AnomalyTypeView::QualityDegradation => "quality_degradation"@,
        AnomalyTypeView::SecurityThreat => "security_threat"@,
        AnomalyTypeView::Custom(s) => s,
    }
}

impl AnomalyType {
    /// Equality of anomaly types, by value.
    pub fn same_as(&self, other: &AnomalyType) -> (r: bool)
        ensures
            r == (self@ == other@),
    {
        match (self, other) {
            (AnomalyType::LatencySpike, AnomalyType::LatencySpike) => true,
            (AnomalyType::ThroughputDegradation, AnomalyType::ThroughputDegradation) => true,
            (AnomalyType::ErrorRateIncrease, AnomalyType::ErrorRateIncrease) => true,
            (AnomalyType::TokenUsageSpike, AnomalyType::TokenUsageSpike) => true,
            (AnomalyType::CostAnomaly, AnomalyType::CostAnomaly) => true,
            (AnomalyType::InputDrift, AnomalyType::InputDrift) => true,
            (AnomalyType::OutputDrift, AnomalyType::OutputDrift) => true,
            (AnomalyType::ConceptDrift, AnomalyType::ConceptDrift) => true,
            (AnomalyType::EmbeddingDrift, AnomalyType::EmbeddingDrift) => true,
            (AnomalyType::Hallucination, AnomalyType::Hallucination) => true,
            (AnomalyType::QualityDegradation, AnomalyType::QualityDegradation) => true,
            (AnomalyType::SecurityThreat, AnomalyType::SecurityThreat) => true,
            (AnomalyType::Custom(a), AnomalyType::Custom(b)) => a.eq(b),
            _ => false,
        }
    }

    /// The snake_case wire rendering.
    pub fn to_string(&self) -> (r: String)
        ensures
            r@ == anomaly_type_label(self@),
    {
        match self {
            AnomalyType::LatencySpike => String::from_str("latency_spike"),
            AnomalyType::ThroughputDegradation => String::from_str("throughput_degradation"),
            AnomalyType::ErrorRateIncrease => String::from_str("error_rate_increase"),
            AnomalyType::TokenUsageSpike => String::from_str("token_usage_spike"),
            AnomalyType::CostAnomaly => String::from_str("cost_anomaly"),
            AnomalyType::InputDrift => String::from_str("input_drift"),
            AnomalyType::OutputDrift => String::from_str("output_drift"),
            AnomalyType::ConceptDrift => String::from_str("concept_drift"),
            AnomalyType::EmbeddingDrift => String::from_str("embedding_drift"),
            AnomalyType::Hallucination => String::from_str("hallucination"),
            AnomalyType::QualityDegradation => String::from_str("quality_degradation"),
            AnomalyType::SecurityThreat => String::from_str("security_threat"),
            AnomalyType::Custom(s) => s.clone(),
        }
    }
}

/// Method by which an anomaly was found; a closed set with a custom escape hatch.
#[derive(Debug, Clone, PartialEq, Eq, Hash)]
pub enum DetectionMethod {
    ZScore,
    Iqr,
    Mad,
    Cusum,
    IsolationForest,
    LstmAutoencoder,
    OneClassSvm,
    Psi,
    KlDivergence,
    LlmCheck,
    Rag,
    Custom(String),
}

impl DetectionMethod {
    /// The snake_case rendering of a method; a custom method renders as its own text.
    pub open spec fn label(&self) -> Seq<char> {
        match self {
            DetectionMethod::ZScore => "z_score"@,
            DetectionMethod::Iqr => "iqr"@,
            DetectionMethod::Mad => "mad"@,
            DetectionMethod::Cusum => "cusum"@,
            DetectionMethod::IsolationForest => "isolation_forest"@,
            DetectionMethod::LstmAutoencoder => "lstm_autoencoder"@,
            DetectionMethod::OneClassSvm => "one_class_svm"@,
            DetectionMethod::Psi => "psi"@,
            DetectionMethod::KlDivergence => "kl_divergence"@,
            DetectionMethod::LlmCheck => "llm_check"@,
            DetectionMethod::Rag => "rag"@,
            DetectionMethod::Custom(s) => s@,
        }
    }

    /// The snake_case wire rendering.
    pub fn to_string(&self) -> (r: String)
        ensures
            r@ == self.label(),
    {
        match self {
            DetectionMethod::ZScore => String::from_str("z_score"),
            DetectionMethod::Iqr => String::from_str("iqr"),
            DetectionMethod::Mad => String::from_str("mad"),
            DetectionMethod::Cusum => String::from_str("cusum"),
            DetectionMethod::IsolationForest => String::from_str("isolation_forest"),
            DetectionMethod::LstmAutoencoder => String::from_str("lstm_autoencoder"),
            DetectionMethod::OneClassSvm => String::from_str("one_class_svm"),
            DetectionMethod::Psi => String::from_str("psi"),
            DetectionMethod::KlDivergence => String::from_str("kl_divergence"),
            DetectionMethod::LlmCheck => String::from_str("llm_check"),
            DetectionMethod::Rag => String::from_str("rag"),
            DetectionMethod::Custom(s) => s.clone(),
        }
    }
}

/// Where and over what an anomaly was observed.
#[derive(Debug, Clone, PartialEq, Eq)]
pub struct AnomalyContext {
    pub trace_id: Option<String>,
    pub user_id: Option<String>,
    pub region: Option<String>,
    /// Label of the window the baseline was taken over.
    pub time_window: String,
    /// Samples behind the baseline.
    pub sample_count: usize,
    pub additional: std::collections::HashMap<String, String>,
}

/// Identifier of a monitored service.
#[derive(Debug, Clone, PartialEq, Eq, Hash)]
pub struct ServiceId {
    id: String,
}

impl View for ServiceId {
    type V = Seq<char>;

    closed spec fn view(&self) -> Seq<char> {
        self.id@
    }
}

impl ServiceId {
    pub fn new(id: &str) -> (r: ServiceId)
        ensures
            r@ == id@,
    {
        ServiceId { id: String::from_str(id) }
    }

    pub fn from_string(id: String) -> (r: ServiceId)
        ensures
            r@ == id@,
    {
        ServiceId { id }
    }

    pub fn as_str(&self) -> (r: &str)
        ensures
            r@ == self@,
    {
        self.id.as_str()
    }

    pub fn to_string(&self) -> (r: String)
        ensures
            r@ == self@,
    {
        self.id.clone()
    }

    /// Equality of identifiers, by text.
    pub fn same_as(&self, other: &ServiceId) -> (r: bool)
        ensures
            r == (self@ == other@),
    {
        self.id == other.id
    }
}

/// Identifier of a language model.
#[derive(Debug, Clone, PartialEq, Eq, Hash)]
pub struct ModelId {
    id: String,
}

impl View for ModelId {
    type V = Seq<char>;

    closed spec fn view(&self) -> Seq<char> {
        self.id@
    }
}

impl ModelId {
    pub fn new(id: &str) -> (r: ModelId)
        ensures
            r@ == id@,
    {
        ModelId { id: String::from_str(id) }
    }

    pub fn from_string(id: String) -> (r: ModelId)
        ensures
            r@ == id@,
    {
        ModelId { id }
    }

    pub fn as_str(&self) -> (r: &str)
        ensures
            r@ == self@,
    {
        self.id.as_str()
    }

    pub fn to_string(&self) -> (r: String)
        ensures
            r@ == self@,
    {
        self.id.clone()
    }

    /// Equality of identifiers, by text.
    pub fn same_as(&self, other: &ModelId) -> (r: bool)
        ensures
            r == (self@ == other@),
    {
        self.id == other.id
    }
}

impl<'a> From<&'a str> for ServiceId {
    fn from(s: &'a str) -> (r: ServiceId)
        ensures
            r@ == s@,
    {
        ServiceId::new(s)
    }
}

impl<'a> vstd::std_specs::convert::FromSpecImpl<&'a str> for ServiceId {
    open spec fn obeys_from_spec() -> bool {
        false
    }

    open spec fn from_spec(v: &'a str) -> ServiceId {
        arbitrary()
    }
}

impl From<String> for ServiceId {
    fn from(s: String) -> (r: ServiceId)
        ensures
            r@ == s@,
    {
        ServiceId::from_string(s)
    }
}

impl vstd::std_specs::convert::FromSpecImpl<String> for ServiceId {
    open spec fn obeys_from_spec() -> bool {
        false
    }

    open spec fn from_spec(v: String) -> ServiceId {
        arbitrary()
    }
}

impl<'a> From<&'a str> for ModelId {
    fn from(s: &'a str) -> (r: ModelId)
        ensures
            r@ == s@,
    {
        ModelId::new(s)
    }
}

impl<'a> vstd::std_specs::convert::FromSpecImpl<&'a str> for ModelId {
    open spec fn obeys_from_spec() -> bool {
        false
    }

    open spec fn from_spec(v: &'a str) -> ModelId {
        arbitrary()
    }
}

impl From<String> for ModelId {
    fn from(s: String) -> (r: ModelId)
        ensures
            r@ == s@,
    {
        ModelId::from_string(s)
    }
}

impl vstd::std_specs::convert::FromSpecImpl<String> for ModelId {
    open spec fn obeys_from_spec() -> bool {
        false
    }

    open spec fn from_spec(v: String) -> ModelId {
        arbitrary()
    }
}

} // verus!
